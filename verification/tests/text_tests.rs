use cyberchan_sdk::default_style;
use cyberchan_sdk::text::{
    is_blank_text, is_white_space_char, replace_all, starts_with, trim_end_char,
    utf8_len_exceeds, utf8_width,
};

#[test]
fn default_style_is_concise() {
    assert_eq!(default_style(), "concise");
}

#[test]
fn starts_with_matches_std() {
    for (s, p) in [("https://x", "https"), ("http://x", "https"), ("", ""), ("ab", "abc"), ("é1", "é")] {
        assert_eq!(starts_with(s, p), s.starts_with(p), "{s} {p}");
    }
}

#[test]
fn replace_all_matches_std() {
    let cases = [
        ("https://a/https://b", "https://", ""),
        ("aaaa", "aa", "b"),
        ("aaa", "aa", "xyz"),
        ("no match", "zz", "q"),
        ("", "a", "b"),
        ("éé-éé", "é-", "E"),
    ];
    for (s, p, r) in cases {
        assert_eq!(replace_all(s, p, r), s.replace(p, r), "{s} {p} {r}");
    }
}

#[test]
fn trim_end_char_matches_std() {
    for s in ["a//", "//", "", "a/b/", "a"] {
        assert_eq!(trim_end_char(s, '/'), s.trim_end_matches('/'));
    }
}

#[test]
fn white_space_matches_std() {
    for v in 0u32..0x3100 {
        if let Some(c) = char::from_u32(v) {
            assert_eq!(is_white_space_char(c), c.is_whitespace(), "{v:#x}");
        }
    }
    assert!(!is_white_space_char('\u{feff}'));
}

#[test]
fn blank_text_matches_trim() {
    for s in ["", " ", "\t\r\n", " a ", "\u{2003}", "x"] {
        assert_eq!(is_blank_text(s), s.trim().is_empty());
    }
}

#[test]
fn utf8_width_and_length() {
    for c in ['a', 'é', '€', '🦀'] {
        assert_eq!(utf8_width(c), c.len_utf8());
    }
    assert!(!utf8_len_exceeds("héllo", 6));
    assert!(utf8_len_exceeds("héllo", 5));
    assert!(!utf8_len_exceeds("", 0));
}
