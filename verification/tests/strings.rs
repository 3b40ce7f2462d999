use gist::text::{is_blank, is_whitespace, join, join3, str_eq, str_le, to_decimal, trim};

#[test]
fn whitespace_is_that_of_unicode() {
    for code in 0..=0x10ffffu32 {
        if let Some(c) = char::from_u32(code) {
            assert_eq!(is_whitespace(c), c.is_whitespace(), "U+{code:04X}");
        }
    }
}

#[test]
fn trimming_cuts_both_ends() {
    for s in [
        "", " ", "\n", "a", " a", "a ", "  a b\t\n", "\u{3000}x\u{a0}", "é ü ", "\u{200b}a",
        "ghp_token\n", "  \u{1680}  ",
    ] {
        assert_eq!(trim(s), s.trim());
        assert_eq!(is_blank(s), s.trim().is_empty());
    }
    assert_eq!(trim("  a b\t\n"), "a b");
}

#[test]
fn strings_are_ordered_by_their_bytes() {
    let samples = ["", "a", "A", "ab", "b", "é", "z", "日本", "\u{ffff}", "\u{10000}", "a\u{0}"];
    for a in samples {
        for b in samples {
            assert_eq!(str_eq(a, b), a == b);
            assert_eq!(str_le(a, b), a <= b);
        }
    }
}

#[test]
fn numbers_are_written_in_decimal() {
    for n in [0, 1, 9, 10, 11, 99, 100, 12345, 4_000_000_000, u32::MAX] {
        assert_eq!(to_decimal(n), n.to_string());
    }
}

#[test]
fn strings_are_joined_in_order() {
    assert_eq!(join("a", "b"), "ab");
    assert_eq!(join("", "b"), "b");
    assert_eq!(join3("a", "–", "c"), "a–c");
}
