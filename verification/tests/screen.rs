use gist::tui::highlight::{pieces_or_none, Highlighting, StyledText, THEME};
use gist::tui::keys::{key_event_to_bytes, KeyCode, KeyEvent, KeyKind, Modifiers};
use gist::tui::layout::{content_pane_size, editor_size, panes, positive, Area};
use syntect::easy::HighlightLines;
use syntect::highlighting::ThemeSet;
use syntect::parsing::SyntaxSet;

fn area(x: u16, y: u16, width: u16, height: u16) -> Area {
    Area { x, y, width, height }
}

#[test]
fn panes_of_a_usual_screen() {
    let p = panes(area(0, 0, 120, 50));
    assert_eq!(p.sidebar, area(0, 0, 40, 49));
    assert_eq!(p.content, area(40, 0, 80, 49));
    assert_eq!(p.status, area(0, 49, 120, 1));
    assert_eq!(content_pane_size(area(0, 0, 120, 50)), (47, 78));
}

#[test]
fn panes_of_small_and_shifted_screens() {
    for x in [0, 3, 60000] {
        for y in [0, 5, 65000] {
            for width in [0, 1, 2, 39, 40, 41, 42, 43, 80, 81, 200, 5535] {
                for height in [0, 1, 2, 3, 24, 25, 500] {
                    let screen = area(x, y, width, height);
                    let p = panes(screen);
                    let status = height.min(1);
                    let side = width.min(40);
                    assert_eq!(p.status, area(x, y + height - status, width, status));
                    assert_eq!(p.sidebar, area(x, y, side, height - status));
                    assert_eq!(p.content, area(x + side, y, width - side, height - status));
                    assert_eq!(
                        content_pane_size(screen),
                        (
                            (height - status).saturating_sub(2),
                            (width - side).saturating_sub(2)
                        )
                    );
                }
            }
        }
    }
}

#[test]
fn panes_of_every_width_and_height() {
    for n in (0..=65535u16).step_by(97) {
        let p = panes(area(0, 0, n, 10));
        assert_eq!((p.sidebar.width, p.content.x, p.content.width), (n.min(40), n.min(40), n - n.min(40)));
        let p = panes(area(0, 0, 10, n));
        assert_eq!((p.status.height, p.status.y, p.content.height), (n.min(1), n - n.min(1), n - n.min(1)));
    }
    assert_eq!(panes(area(0, 0, 65535, 65535)).content, area(40, 0, 65495, 65534));
}

#[test]
fn editor_has_a_row_and_a_column_at_least() {
    assert_eq!(editor_size(area(40, 0, 80, 49)), (47, 78));
    assert_eq!(editor_size(area(0, 0, 2, 2)), (1, 1));
    assert_eq!(editor_size(area(0, 0, 0, 0)), (1, 1));
    assert_eq!(editor_size(area(0, 0, 4, 3)), (1, 2));
    assert_eq!(positive(0), 1);
    assert_eq!(positive(9), 9);
}

fn modifiers(control: bool, alt: bool) -> Modifiers {
    Modifiers { shift: false, control, alt, super_key: false, hyper: false, meta: false }
}

fn bytes(code: KeyCode, control: bool, alt: bool) -> Vec<u8> {
    key_event_to_bytes(&KeyEvent { code, modifiers: modifiers(control, alt), kind: KeyKind::Press })
}

#[test]
fn typed_characters_are_utf8() {
    for c in ['a', 'Z', ' ', '~', '\u{7f}', 'é', '日', '\u{ffff}', '😀', '\u{10ffff}'] {
        assert_eq!(bytes(KeyCode::Char(c), false, false), c.to_string().into_bytes());
        let mut escaped = vec![0x1b];
        escaped.extend(c.to_string().into_bytes());
        assert_eq!(bytes(KeyCode::Char(c), false, true), escaped);
    }
}

#[test]
fn control_characters_follow_the_alphabet() {
    for (i, c) in ('a'..='z').enumerate() {
        assert_eq!(bytes(KeyCode::Char(c), true, false), vec![i as u8 + 1]);
        assert_eq!(bytes(KeyCode::Char(c.to_ascii_uppercase()), true, true), vec![i as u8 + 1]);
    }
    for code in 0..=0x10ffffu32 {
        if let Some(c) = char::from_u32(code) {
            let byte = (c.to_ascii_lowercase() as u8).wrapping_sub(b'a').wrapping_add(1);
            let expected = if byte <= 26 { vec![byte] } else { c.to_string().into_bytes() };
            assert_eq!(bytes(KeyCode::Char(c), true, false), expected);
        }
    }
    assert_eq!(bytes(KeyCode::Char('['), true, true), vec![0x1b, b'[']);
    assert_eq!(bytes(KeyCode::Char('`'), true, false), vec![0]);
}

#[test]
fn named_keys_have_sequences() {
    let expected: Vec<(KeyCode, &[u8])> = vec![
        (KeyCode::Enter, b"\r"),
        (KeyCode::Backspace, b"\x7f"),
        (KeyCode::Esc, b"\x1b"),
        (KeyCode::Tab, b"\t"),
        (KeyCode::BackTab, b"\x1b[Z"),
        (KeyCode::Up, b"\x1b[A"),
        (KeyCode::Down, b"\x1b[B"),
        (KeyCode::Right, b"\x1b[C"),
        (KeyCode::Left, b"\x1b[D"),
        (KeyCode::Home, b"\x1b[H"),
        (KeyCode::End, b"\x1b[F"),
        (KeyCode::PageUp, b"\x1b[5~"),
        (KeyCode::PageDown, b"\x1b[6~"),
        (KeyCode::Insert, b"\x1b[2~"),
        (KeyCode::Delete, b"\x1b[3~"),
        (KeyCode::F(1), b"\x1bOP"),
        (KeyCode::F(2), b"\x1bOQ"),
        (KeyCode::F(3), b"\x1bOR"),
        (KeyCode::F(4), b"\x1bOS"),
        (KeyCode::F(5), b"\x1b[15~"),
        (KeyCode::F(6), b"\x1b[17~"),
        (KeyCode::F(7), b"\x1b[18~"),
        (KeyCode::F(8), b"\x1b[19~"),
        (KeyCode::F(9), b"\x1b[20~"),
        (KeyCode::F(10), b"\x1b[21~"),
        (KeyCode::F(11), b"\x1b[23~"),
        (KeyCode::F(12), b"\x1b[24~"),
        (KeyCode::F(13), b""),
        (KeyCode::F(0), b""),
        (KeyCode::Other, b""),
    ];
    for (code, sequence) in expected {
        assert_eq!(bytes(code, false, false), sequence, "{code:?}");
        assert_eq!(bytes(code, true, true), sequence, "{code:?}");
    }
}

type Piece = (u8, u8, u8, String);

fn flat(lines: &[Vec<StyledText>]) -> Vec<Vec<Piece>> {
    lines
        .iter()
        .map(|line| line.iter().map(|p| (p.red, p.green, p.blue, p.text.clone())).collect())
        .collect()
}

fn reference(extension: Option<&str>, lines: &[&str]) -> Vec<Vec<Piece>> {
    let set = SyntaxSet::load_defaults_newlines();
    let theme = ThemeSet::load_defaults().themes[THEME].clone();
    let syntax = match extension {
        Some(extension) => set.find_syntax_by_extension(extension).unwrap(),
        None => set.find_syntax_plain_text(),
    };
    let mut highlighter = HighlightLines::new(syntax, &theme);
    lines
        .iter()
        .map(|line| {
            highlighter
                .highlight_line(line, &set)
                .unwrap()
                .into_iter()
                .map(|(style, text)| {
                    let c = style.foreground;
                    (c.r, c.g, c.b, text.to_string())
                })
                .collect()
        })
        .collect()
}

const PROGRAM: &str = "/* a\ncomment */ fn main() {\n    println!(\"hi\");\n}";

#[test]
fn known_extensions_are_coloured() {
    let h = Highlighting::load();
    let lines = ["/* a\n", "comment */ fn main() {\n", "    println!(\"hi\");\n", "}"];
    let expected = reference(Some("rs"), &lines);
    assert_eq!(flat(&h.highlight_content("main.rs", PROGRAM)), expected);
    assert_eq!(flat(&h.highlight_content("MAIN.RS", PROGRAM)), expected);
    assert_eq!(flat(&h.highlight_content("a.b.rs", PROGRAM)), expected);
    assert!(expected.iter().any(|line| line.len() > 1));
    // The comment goes over the end of a line, so the state behind a line counts.
    assert_ne!(expected[1], reference(Some("rs"), &lines[1..2])[0]);
    let text: String = expected.iter().flatten().map(|p| p.3.as_str()).collect();
    assert_eq!(text, PROGRAM);
}

#[test]
fn whole_names_count_as_extensions() {
    let h = Highlighting::load();
    let lines = ["all: x\n", "\tcc -o $@ $<\n"];
    assert_eq!(
        flat(&h.highlight_content("Makefile", &lines.concat())),
        reference(Some("Makefile"), &lines)
    );
}

#[test]
fn last_component_of_a_path_counts() {
    let h = Highlighting::load();
    let lines = ["fn main() {}\n", "// end\n"];
    let expected = reference(Some("rs"), &lines);
    assert_eq!(flat(&h.highlight_content("no/such.dir/main.rs", &lines.concat())), expected);
    assert_eq!(flat(&h.highlight_content("12 : 30.rs", &lines.concat())), expected);
}

#[test]
fn colours_keep_the_text() {
    let h = Highlighting::load();
    let content = "# T\n\n```rust\nfn x() { \"é\" }\n```\nlast";
    for name in ["a.md", "a.rs", "a.html", "a.py", "a.json", "a.unknown-kind"] {
        let lines = h.highlight_content(name, content);
        let joined: Vec<String> =
            lines.iter().map(|line| line.iter().map(|p| p.text.as_str()).collect()).collect();
        assert_eq!(joined.concat(), content, "{name}");
        assert_eq!(joined[0], "# T\n");
    }
}

#[test]
fn unknown_names_are_plain_text() {
    let h = Highlighting::load();
    let lines = ["fn main() {}\n", "\n", "end"];
    let expected = reference(None, &lines);
    assert_eq!(flat(&h.highlight_content("no-such-file-here", &lines.concat())), expected);
    assert_eq!(flat(&h.highlight_as(None, &lines.concat())), expected);
}

#[test]
fn lines_are_counted_by_line_feeds() {
    let h = Highlighting::load();
    for (content, count) in [("", 0), ("a", 1), ("a\n", 1), ("a\nb", 2), ("\n\n", 2), ("a\r\nb\n", 2)] {
        assert_eq!(h.highlight_content("x.txt", content).len(), count, "{content:?}");
    }
}

#[test]
fn line_that_could_not_be_parsed_is_empty() {
    assert!(pieces_or_none(None).is_empty());
    let piece = StyledText { red: 1, green: 2, blue: 3, text: "t".to_string() };
    let pieces = pieces_or_none(Some(vec![piece]));
    assert_eq!(flat(&[pieces]), vec![vec![(1, 2, 3, "t".to_string())]]);
}

#[test]
fn every_bundled_syntax_starts() {
    let set = SyntaxSet::load_defaults_newlines();
    let h = Highlighting::load();
    for syntax in set.syntaxes() {
        for extension in &syntax.file_extensions {
            if extension.contains('/') {
                continue;
            }
            let lines = h.highlight_content(&format!("x.{extension}"), "a = \"b\" // c\n<x>\n");
            assert_eq!(lines.len(), 2, "{extension}");
        }
    }
}
