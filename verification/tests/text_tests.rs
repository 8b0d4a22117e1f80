use ime_cursor_indicator::text::{
    char_is_white_space, chars_of, text_contains, text_equals, text_starts_with, trim,
};

#[test]
fn trim_agrees_with_str_trim() {
    for s in ["", "   ", " a ", "\t\r\nabc def\u{3000}", "x", "\u{2003}y\u{85}", "a b"] {
        assert_eq!(trim(s), s.trim());
    }
}

#[test]
fn contains_agrees_with_str_contains() {
    let cases = [("abc", "b"), ("abc", ""), ("", ""), ("", "a"), ("ab", "abc"), ("mozc-jp", "mozc"), ("aab", "ab")];
    for (s, p) in cases {
        assert_eq!(text_contains(s, p), s.contains(p));
    }
}

#[test]
fn equality_and_prefix() {
    assert!(text_equals("\u{3042}", "\u{3042}"));
    assert!(!text_equals("a", "ab"));
    assert!(text_starts_with("IBUS_ADDRESS=x", "IBUS_ADDRESS="));
    assert!(!text_starts_with("IBUS", "IBUS_ADDRESS="));
}

#[test]
fn white_space_and_chars() {
    for c in ['\t', '\n', ' ', '\u{a0}', '\u{3000}', 'a', '_', '\u{200b}'] {
        assert_eq!(char_is_white_space(c), c.is_whitespace());
    }
    assert_eq!(chars_of("a\u{3042}b"), vec!['a', '\u{3042}', 'b']);
}

