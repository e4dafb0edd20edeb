use alfred::text::{
    contains_text, first_line, is_whitespace, join_by, lines, parse_u32, parse_usize,
    prefix_within_bytes, same_text, strip, to_decimal, trim, CharClass,
};

#[test]
fn trims_unicode_whitespace() {
    assert_eq!(trim("  a b \t\n"), "a b");
    assert_eq!(trim("\u{3000}x\u{a0}"), "x");
    assert_eq!(trim(""), "");
    assert_eq!(trim(" \n "), "");
    assert!(is_whitespace('\u{2028}'));
    assert!(!is_whitespace('x'));
}

#[test]
fn strips_quotes() {
    assert_eq!(strip("\"`feature/x'\"", CharClass::Quote), "feature/x");
    assert_eq!(strip("a\"b", CharClass::Quote), "a\"b");
}

#[test]
fn splits_lines_like_std() {
    for s in ["", "a", "a\n", "a\r\nb", "\n\nx\n", "a\r", "x\n\r\n"] {
        let expected: Vec<String> = s.lines().map(String::from).collect();
        assert_eq!(lines(s), expected, "{:?}", s);
    }
    assert_eq!(first_line("one\ntwo"), "one");
    assert_eq!(first_line(""), "");
}

#[test]
fn finds_substrings() {
    assert!(contains_text("a warning: x", "warning"));
    assert!(!contains_text("warn", "warning"));
    assert!(contains_text("abc", ""));
    assert!(same_text("ab", "ab"));
    assert!(!same_text("ab", "abc"));
}

#[test]
fn decimal_numbers() {
    assert_eq!(to_decimal(0), "0");
    assert_eq!(to_decimal(18446744073709551615), "18446744073709551615");
    assert_eq!(parse_u32("4294967295"), Some(4294967295));
    assert_eq!(parse_u32("4294967296"), None);
    assert_eq!(parse_u32("+12"), Some(12));
    assert_eq!(parse_u32("-1"), None);
    assert_eq!(parse_u32("+"), None);
    assert_eq!(parse_u32("1 2"), None);
    assert_eq!(parse_usize("007"), Some(7));
}

#[test]
fn byte_prefix_keeps_whole_chars() {
    assert_eq!(prefix_within_bytes("abcdef", 4), "abcd");
    assert_eq!(prefix_within_bytes("aé", 2), "a");
    assert_eq!(prefix_within_bytes("aé", 3), "aé");
    assert_eq!(prefix_within_bytes("", 3), "");
    assert_eq!(prefix_within_bytes("😀x", 3), "");
}

#[test]
fn joins_with_separator() {
    let v = vec!["a".to_string(), "".to_string(), "c".to_string()];
    assert_eq!(join_by(&v, '-'), "a--c");
    assert_eq!(join_by(&Vec::new(), '\n'), "");
}
