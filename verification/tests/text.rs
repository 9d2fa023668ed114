use antigravity_quota::text::{
    append_padded_left, append_padded_right, blank, join_texts, replace_all, same_text,
    strip_prefix, take_characters, utf8_len,
};

#[test]
fn replaces_as_the_standard_library_does() {
    let cases = [
        ("", "", "x"), ("ab", "", "-"), ("aaa", "aa", "b"), ("abcabc", "bc", ""), ("abc", "abc", "q"),
        ("abc", "abcd", "q"), ("\u{e9}t\u{e9}", "t", "\u{20ac}"), ("xaay", "a", "aa"), ("ababab", "abab", "z"),
    ];
    for (text, pattern, with) in cases {
        assert_eq!(replace_all(text, pattern, with), text.replace(pattern, with), "{:?}", text);
    }
}

#[test]
fn blank_means_unicode_white_space() {
    assert!(blank(""));
    assert!(blank(" \t\r\n\u{b}\u{c}\u{85}\u{a0}\u{1680}\u{2003}\u{2028}\u{2029}\u{202f}\u{205f}\u{3000}"));
    assert!(!blank("\u{200b}"));
    assert!(!blank(" x "));
}

#[test]
fn trimming_removes_exactly_white_space() {
    let listed = |c: u32| {
        matches!(c, 0x9..=0xd | 0x20 | 0x85 | 0xa0 | 0x1680 | 0x2000..=0x200a | 0x2028 | 0x2029 | 0x202f
            | 0x205f | 0x3000)
    };
    for code in 0..0x11_0000u32 {
        if let Some(c) = char::from_u32(code) {
            let mut text = String::new();
            text.push(c);
            assert_eq!(text.trim().is_empty(), listed(code), "{:x}", code);
        }
    }
}

#[test]
fn lengths_and_prefixes() {
    assert_eq!(utf8_len("\u{e9}\u{20ac}a"), 6);
    assert_eq!(strip_prefix("~/x", "~/"), Some("x"));
    assert_eq!(strip_prefix("~x", "~/"), None);
    assert_eq!(strip_prefix("~", "~/"), None);
    assert_eq!(take_characters("\u{e9}\u{20ac}a", 2), "\u{e9}\u{20ac}");
    assert_eq!(take_characters("ab", 2), "ab");
    assert_eq!(take_characters("ab", 0), "");
    assert!(same_text("\u{e9}", "\u{e9}"));
    assert!(!same_text("e", "\u{e9}"));
    assert!(!same_text("ab", "ac"));
}

#[test]
fn joins_and_pads() {
    let parts = vec!["a".to_string(), "b".to_string(), "c".to_string()];
    assert_eq!(join_texts(&parts, ", "), "a, b, c");
    assert_eq!(join_texts(&vec![], ", "), "");
    let mut line = String::new();
    append_padded_right(&mut line, "\u{e9}", 3);
    append_padded_left(&mut line, "x", 3);
    append_padded_left(&mut line, "long", 3);
    assert_eq!(line, "\u{e9}    xlong");
}
