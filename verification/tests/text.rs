use esgraph::text::{
    chars_of, i64_decimal, join_strings, join_strs, parse_u64, str_contains, str_eq, str_is_blank,
    trimmed_chars, u64_decimal,
};

#[test]
fn decimal_rendering() {
    assert_eq!(u64_decimal(0), "0");
    assert_eq!(u64_decimal(1234567890), "1234567890");
    assert_eq!(i64_decimal(-7), "-7");
    assert_eq!(i64_decimal(i64::MIN), "-9223372036854775808");
    assert_eq!(i64_decimal(i64::MAX), "9223372036854775807");
}

#[test]
fn decimal_parsing() {
    assert_eq!(parse_u64("0"), Some(0));
    assert_eq!(parse_u64("+42"), Some(42));
    assert_eq!(parse_u64(""), None);
    assert_eq!(parse_u64("+"), None);
    assert_eq!(parse_u64("-1"), None);
    assert_eq!(parse_u64(" 1"), None);
    assert_eq!(parse_u64("007"), Some(7));
    for v in [0u64, 9, 10, 99, 12345, u64::MAX] {
        assert_eq!(parse_u64(&u64_decimal(v)), Some(v));
    }
}

#[test]
fn joining_and_comparing() {
    assert_eq!(join_strings(&["a".to_string(), "b".to_string()], ", "), "a, b");
    assert_eq!(join_strs(&["x"], "-"), "x");
    assert_eq!(join_strs(&[], "-"), "");
    assert!(str_eq("abc", "abc"));
    assert!(!str_eq("abc", "abd"));
    assert!(!str_eq("ab", "abc"));
    assert_eq!(chars_of("héllo"), vec!['h', 'é', 'l', 'l', 'o']);
}

#[test]
fn whitespace_and_search() {
    assert!(str_is_blank(""));
    assert!(str_is_blank(" \t\u{3000}\n"));
    assert!(!str_is_blank(" x "));
    assert_eq!(trimmed_chars("\u{a0} a b \n"), vec!['a', ' ', 'b']);
    assert_eq!(trimmed_chars("   "), Vec::<char>::new());
    assert!(str_contains("ES_NOT_ENTITLED", "NOT_ENTITLED"));
    assert!(str_contains("abc", ""));
    assert!(!str_contains("ab", "abc"));
    assert!(!str_contains("NOT_ENTITLE", "NOT_ENTITLED"));
}
