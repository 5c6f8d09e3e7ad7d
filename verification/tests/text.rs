use dejavu_similarity_api::text::{
    concatenate, i64_to_decimal, is_blank, parse_u64, parse_unsigned, parse_usize, starts_with, str_eq, trim,
    u64_to_decimal,
};

#[test]
fn decimal_rendering() {
    assert_eq!(u64_to_decimal(0), "0");
    assert_eq!(u64_to_decimal(7), "7");
    assert_eq!(u64_to_decimal(86400), "86400");
    assert_eq!(u64_to_decimal(u64::MAX), "18446744073709551615");
    assert_eq!(i64_to_decimal(-42), "-42");
    assert_eq!(i64_to_decimal(i64::MIN), "-9223372036854775808");
    assert_eq!(i64_to_decimal(i64::MAX), "9223372036854775807");
}

#[test]
fn parsing_follows_std() {
    let cases = ["", "+", "-", "0", "+12", "-12", "12a", " 12", "007", "18446744073709551615", "18446744073709551616", "99999999999999999999999"];
    for c in cases {
        assert_eq!(parse_u64(c), c.parse::<u64>().ok(), "input {:?}", c);
        assert_eq!(parse_usize(c), c.parse::<usize>().ok(), "input {:?}", c);
    }
    assert_eq!(parse_unsigned("300", 255), None);
    assert_eq!(parse_unsigned("255", 255), Some(255));
}

#[test]
fn parse_renders_back() {
    for n in [0u64, 1, 9, 10, 99, 12345, u64::MAX] {
        assert_eq!(parse_u64(&u64_to_decimal(n)), Some(n));
    }
}

#[test]
fn trimming() {
    assert_eq!(trim("  hello world \n"), "hello world");
    assert_eq!(trim("\u{3000}\u{a0}texto\u{2028}"), "texto");
    assert_eq!(trim("   "), "");
    assert_eq!(trim("a"), "a");
    for s in ["", " x ", "\t\r\n", "\u{85}y\u{200a}", "ab c"] {
        assert_eq!(trim(s), s.trim());
        assert_eq!(is_blank(s), s.trim().is_empty());
    }
    assert!(is_blank(" \t\n"));
    assert!(!is_blank(" . "));
}

#[test]
fn comparisons() {
    assert!(starts_with("/tmp/file", "/tmp"));
    assert!(starts_with("abc", ""));
    assert!(!starts_with("ab", "abc"));
    assert!(!starts_with("/var/tmp", "/tmp"));
    assert!(str_eq("token", "token"));
    assert!(!str_eq("token", "Token"));
    assert_eq!(concatenate("ab", "cd"), "abcd");
}
