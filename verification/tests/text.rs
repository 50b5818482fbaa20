use sdkwork_github::text::{
    char_is_white_space, chars_of, concat2, concat3, decimal_string, is_blank, is_blank_str,
    push_decimal, text_eq, trim,
};

#[test]
fn white_space_matches_std() {
    for c in ['\t', '\n', '\u{b}', '\u{c}', '\r', ' ', '\u{85}', '\u{a0}', '\u{1680}', '\u{2000}',
        '\u{200a}', '\u{2028}', '\u{2029}', '\u{202f}', '\u{205f}', '\u{3000}', 'a', '0', '\u{200b}',
        '\u{feff}', '_']
    {
        assert_eq!(char_is_white_space(c), c.is_whitespace(), "{:?}", c);
    }
}

#[test]
fn blank_texts() {
    assert!(is_blank(None));
    assert!(is_blank(Some("")));
    assert!(is_blank(Some(" \t\r\n\u{3000}")));
    assert!(!is_blank(Some(" a ")));
    assert!(is_blank_str(""));
    assert!(!is_blank_str("x"));
}

#[test]
fn trim_removes_outer_white_space_only() {
    assert_eq!(trim("  true \n"), "true");
    assert_eq!(trim("a b"), "a b");
    assert_eq!(trim("   "), "");
    assert_eq!(trim(""), "");
    assert_eq!(trim("\u{2003}yes\u{3000}"), "yes");
    for s in ["  x  ", "\t\ty", "z\n", "", " ", "a  b"] {
        assert_eq!(trim(s), s.trim());
    }
}

#[test]
fn decimal_rendering() {
    assert_eq!(decimal_string(0), "0");
    assert_eq!(decimal_string(7), "7");
    assert_eq!(decimal_string(10), "10");
    assert_eq!(decimal_string(1296269), "1296269");
    assert_eq!(decimal_string(u64::MAX), u64::MAX.to_string());
    let mut s = String::from("$");
    push_decimal(&mut s, 42);
    assert_eq!(s, "$42");
}

#[test]
fn text_helpers() {
    assert!(text_eq("bug", "bug"));
    assert!(!text_eq("bug", "Bug"));
    assert!(!text_eq("bug", "bugs"));
    assert_eq!(chars_of("héllo"), vec!['h', 'é', 'l', 'l', 'o']);
    assert_eq!(concat2("a", "b"), "ab");
    assert_eq!(concat3("%", "q", "%"), "%q%");
}
