use gist::cli::{Cli, Command, Task};
use gist::commands::create::{editor_finished, read_from_editor, report, stdin_prompt};
use gist::commands::locator::parse_gist_id;
use gist::commands::show::Part;
use gist::commands::{create, delete, list, show};
use gist::editing::{editor_command, temp_file_name, temp_file_name_with};
use gist::error::{exit_code, CliError};
use gist::gists::{Gist, GistFile};
use gist::output::{Segment, Tone};

fn file(name: &str, content: Option<&str>) -> (String, GistFile) {
    (
        name.to_string(),
        GistFile {
            filename: name.to_string(),
            content: content.map(String::from),
            raw_url: None,
            size: None,
            language: None,
        },
    )
}

fn sample(id: &str, public: bool, files: Vec<(String, GistFile)>) -> Gist {
    Gist {
        id: id.to_string(),
        html_url: format!("https://gist.github.com/{id}"),
        description: None,
        public,
        created_at: "2024-01-01T00:00:00Z".to_string(),
        updated_at: "2024-01-01T00:00:00Z".to_string(),
        files,
    }
}

fn pieces(line: &[Segment]) -> Vec<(Tone, &str)> {
    line.iter().map(|s| (s.tone, s.text.as_str())).collect()
}

#[test]
fn identifier_is_taken_as_it_is() {
    assert_eq!(parse_gist_id("abc123").unwrap(), "abc123");
    assert_eq!(parse_gist_id("").unwrap(), "");
    assert_eq!(parse_gist_id("a?b#c").unwrap(), "a?b#c");
    assert_eq!(parse_gist_id("日本").unwrap(), "日本");
}

#[test]
fn url_names_its_last_segment() {
    assert_eq!(parse_gist_id("https://gist.github.com/user/abc123").unwrap(), "abc123");
    assert_eq!(parse_gist_id("/x").unwrap(), "x");
    assert_eq!(parse_gist_id("a//b").unwrap(), "b");
    assert_eq!(parse_gist_id("über/größe").unwrap(), "größe");
    let id = parse_gist_id("https://gist.github.com/user/abc123").unwrap();
    assert_eq!(parse_gist_id(&id).unwrap(), id);
}

#[test]
fn url_without_identifier_is_refused() {
    for url in ["/", "https://gist.github.com/user/", "a//"] {
        let e = parse_gist_id(url).unwrap_err();
        assert!(matches!(e, CliError::Api { .. }));
        assert_eq!(e.message(), format!("could not parse gist ID from: {url}"));
        assert_eq!(e.hint(), None);
        assert_eq!(exit_code(&e), 5);
        assert_eq!(delete::execute(url).unwrap_err().message(), e.message());
    }
}

#[test]
fn deleting_names_the_gist_and_reports() {
    assert_eq!(delete::execute("https://gist.github.com/u/id9").unwrap(), "id9");
    assert_eq!(
        pieces(&delete::report()),
        vec![(Tone::Success, "✔"), (Tone::Plain, " gist deleted")]
    );
    assert_eq!(delete::PROGRESS, "Deleting gist...");
}

#[test]
fn blank_text_makes_no_gist() {
    for text in ["", " ", "\n\t \u{3000}"] {
        let e = create::execute(text.to_string(), None, true).unwrap_err();
        assert!(matches!(e, CliError::Api { .. }));
        assert_eq!(e.message(), "no content provided");
        assert_eq!(exit_code(&e), 5);
    }
}

#[test]
fn text_makes_a_gist() {
    let new = create::execute("hello world\n".to_string(), None, false).unwrap();
    assert_eq!(new.filename, "gistfile1.txt");
    assert_eq!(new.content, "hello world\n");
    assert!(!new.public);
    assert_eq!(new.description, "");
    let new = create::execute(" x".to_string(), Some("script.py".to_string()), true).unwrap();
    assert_eq!(new.filename, "script.py");
    assert_eq!(new.content, " x");
    assert!(new.public);
    assert_eq!(create::PROGRESS, "Creating gist...");
    assert_eq!(pieces(&report("u")), vec![(Tone::Success, "✔"), (Tone::Plain, " u")]);
}

#[test]
fn prompt_is_for_terminals() {
    assert!(stdin_prompt(false).is_none());
    assert_eq!(
        pieces(&stdin_prompt(true).unwrap()),
        vec![(Tone::Dimmed, "Enter content, then press Ctrl-D to save:")]
    );
}

#[test]
fn editor_comes_from_the_environment() {
    assert_eq!(editor_command(Some("vim".to_string())).unwrap(), "vim");
    for variable in [None, Some(String::new())] {
        let e = editor_command(variable).unwrap_err();
        assert!(matches!(e, CliError::Api { .. }));
        assert_eq!(e.message(), "EDITOR is not set");
        assert_eq!(e.hint(), None);
    }
    let (editor, name) = read_from_editor(Some("nano".to_string()), 4711).unwrap();
    assert_eq!(editor, "nano");
    assert_eq!(name, "gist-4711.txt");
    assert_eq!(read_from_editor(None, 1).unwrap_err().message(), "EDITOR is not set");
    assert!(editor_finished(true).is_ok());
    let e = editor_finished(false).unwrap_err();
    assert!(matches!(e, CliError::Api { .. }));
    assert_eq!(e.message(), "editor exited with non-zero status");
}

#[test]
fn edited_file_keeps_its_extension() {
    for (name, expected) in [
        ("main.rs", "gist-edit-7.rs"),
        ("archive.tar.gz", "gist-edit-7.gz"),
        ("Makefile", "gist-edit-7.txt"),
        (".bashrc", "gist-edit-7.txt"),
        (".config.toml", "gist-edit-7.toml"),
        ("trailing.", "gist-edit-7."),
        ("..a", "gist-edit-7.a"),
        ("...", "gist-edit-7."),
        (".", "gist-edit-7.txt"),
        ("", "gist-edit-7.txt"),
        ("größe.täxt", "gist-edit-7.täxt"),
        ("dir/inner.py", "gist-edit-7.py"),
        ("dir.d/plain", "gist-edit-7.txt"),
        ("dir/.hidden", "gist-edit-7.txt"),
        ("/top.rs", "gist-edit-7.rs"),
        ("up/..", "gist-edit-7.txt"),
        ("..", "gist-edit-7.txt"),
        ("time 12:30.log", "gist-edit-7.log"),
    ] {
        assert_eq!(temp_file_name(7, name), expected, "{name}");
        let extension = std::path::Path::new(name)
            .extension()
            .and_then(|e| e.to_str())
            .map(String::from);
        assert_eq!(temp_file_name_with(7, extension), expected, "{name}");
    }
    assert_eq!(temp_file_name_with(7, None), "gist-edit-7.txt");
}

#[test]
fn listing_has_a_line_for_each_gist() {
    let lines = list::execute(&Vec::new());
    assert_eq!(lines.len(), 1);
    assert_eq!(pieces(&lines[0]), vec![(Tone::Plain, "No gists found.")]);
    let lines = list::execute(&vec![
        sample("a", true, vec![file("z.txt", None), file("a.txt", None)]),
        sample("b", false, vec![file("x", Some("t"))]),
        sample("c", false, vec![]),
    ]);
    assert_eq!(lines.len(), 3);
    assert_eq!(
        pieces(&lines[0]),
        vec![(Tone::Plain, "z.txt"), (Tone::Dimmed, "  https://gist.github.com/a")]
    );
    assert_eq!(
        pieces(&lines[1]),
        vec![(Tone::Plain, "x"), (Tone::Dimmed, " (secret) https://gist.github.com/b")]
    );
    assert_eq!(
        pieces(&lines[2]),
        vec![(Tone::Plain, "(no files)"), (Tone::Dimmed, " (secret) https://gist.github.com/c")]
    );
    assert_eq!(list::PROGRESS, "Fetching gists...");
}

fn outline(parts: &[Part]) -> Vec<String> {
    parts
        .iter()
        .map(|p| match p {
            Part::Heading(line) => {
                assert_eq!(line.len(), 1);
                assert_eq!(line[0].tone, Tone::Dimmed);
                format!("# {}", line[0].text)
            }
            Part::Text(text) => format!("> {text}"),
        })
        .collect()
}

#[test]
fn single_file_is_shown_without_heading() {
    assert_eq!(outline(&show::execute(&sample("a", true, vec![file("x", Some("t\n"))]))), ["> t\n"]);
    assert!(show::execute(&sample("a", true, vec![file("x", None)])).is_empty());
    assert!(show::execute(&sample("a", true, vec![])).is_empty());
    assert_eq!(show::PROGRESS, "Fetching gist...");
}

#[test]
fn several_files_have_headings() {
    let gist = sample("a", true, vec![file("x", Some("1")), file("y", None), file("z", Some(""))]);
    assert_eq!(
        outline(&show::execute(&gist)),
        ["# --- x ---", "> 1", "# --- y ---", "# --- z ---", "> "]
    );
}

#[test]
fn printed_text_is_that_of_the_files() {
    let gist = sample("a", true, vec![file("x", Some("one\n")), file("y", Some("two"))]);
    let text: String = show::execute(&gist)
        .iter()
        .filter_map(|p| match p {
            Part::Text(text) => Some(text.as_str()),
            Part::Heading(_) => None,
        })
        .collect();
    assert_eq!(text, "one\ntwo");
}

fn cli(command: Option<Command>, url: Option<&str>) -> Cli {
    Cli {
        verbose: false,
        public: true,
        name: Some("n".to_string()),
        editor: true,
        command,
        url: url.map(String::from),
    }
}

#[test]
fn named_command_comes_first() {
    assert!(matches!(cli(Some(Command::List), Some("u")).task(), Task::List));
    assert!(matches!(cli(Some(Command::Tui), None).task(), Task::Tui));
    match cli(Some(Command::Delete { url: "d".to_string() }), Some("u")).task() {
        Task::Delete { url } => assert_eq!(url, "d"),
        other => panic!("{other:?}"),
    }
    match cli(None, Some("u")).task() {
        Task::Show { url } => assert_eq!(url, "u"),
        other => panic!("{other:?}"),
    }
    match cli(None, None).task() {
        Task::Create { name, public, editor } => {
            assert_eq!(name.as_deref(), Some("n"));
            assert!(public);
            assert!(editor);
        }
        other => panic!("{other:?}"),
    }
}

#[test]
fn names_ascend_whatever_the_order_of_the_files() {
    let a = sample("a", true, vec![file("b", None), file("a", None), file("Z", None), file("é", None)]);
    let b = sample("a", true, vec![file("é", None), file("Z", None), file("b", None), file("a", None)]);
    assert_eq!(a.sorted_names(), ["Z", "a", "b", "é"]);
    assert_eq!(a.sorted_names(), b.sorted_names());
}

#[test]
fn inserted_file_takes_the_place_of_its_namesake() {
    let mut gist = sample("a", true, vec![]);
    for (name, content) in [("x", "1"), ("y", "2"), ("x", "3")] {
        let (name, file) = file(name, Some(content));
        gist.insert_file(name, file);
    }
    assert_eq!(gist.files.len(), 2);
    assert_eq!(gist.content_of("x").as_deref(), Some("3"));
    assert_eq!(gist.content_of("y").as_deref(), Some("2"));
    assert_eq!(gist.content_of("z"), None);
    assert!(gist.has_file("y"));
    assert!(!gist.has_file("z"));
}
