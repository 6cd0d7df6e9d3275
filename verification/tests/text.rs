use elastic_eye::text::{copy_optional_string, copy_strings, join, parse_i64, starts_with};

#[test]
fn parse_i64_reads_plain_digits() {
    assert_eq!(parse_i64("42"), Some(42));
    assert_eq!(parse_i64("0"), Some(0));
    assert_eq!(parse_i64("007"), Some(7));
}

#[test]
fn parse_i64_reads_a_sign() {
    assert_eq!(parse_i64("-42"), Some(-42));
    assert_eq!(parse_i64("+42"), Some(42));
    assert_eq!(parse_i64("-0"), Some(0));
}

#[test]
fn parse_i64_rejects_text_without_digits() {
    assert_eq!(parse_i64(""), None);
    assert_eq!(parse_i64("+"), None);
    assert_eq!(parse_i64("-"), None);
    assert_eq!(parse_i64("+-1"), None);
    assert_eq!(parse_i64("--1"), None);
}

#[test]
fn parse_i64_rejects_anything_but_digits() {
    assert_eq!(parse_i64(" 42"), None);
    assert_eq!(parse_i64("42 "), None);
    assert_eq!(parse_i64("4 2"), None);
    assert_eq!(parse_i64("4.2"), None);
    assert_eq!(parse_i64("1e3"), None);
    assert_eq!(parse_i64("0x10"), None);
    assert_eq!(parse_i64("12kb"), None);
    assert_eq!(parse_i64("１２"), None);
    assert_eq!(parse_i64("1é"), None);
}

#[test]
fn parse_i64_reads_the_bounds_of_the_type() {
    assert_eq!(parse_i64("9223372036854775807"), Some(i64::MAX));
    assert_eq!(parse_i64("-9223372036854775808"), Some(i64::MIN));
    assert_eq!(parse_i64("+9223372036854775807"), Some(i64::MAX));
    assert_eq!(parse_i64("0000009223372036854775807"), Some(i64::MAX));
}

#[test]
fn parse_i64_rejects_what_the_type_cannot_hold() {
    assert_eq!(parse_i64("9223372036854775808"), None);
    assert_eq!(parse_i64("-9223372036854775809"), None);
    assert_eq!(parse_i64("18446744073709551616"), None);
    assert_eq!(parse_i64("99999999999999999999999999999999"), None);
}

#[test]
fn parse_i64_agrees_with_the_standard_parser() {
    let samples = [
        "", "0", "-", "+", "1", "-1", "+1", "12345", "-12345", "9223372036854775807",
        "9223372036854775808", "-9223372036854775808", "-9223372036854775809", "abc", "12a",
        "a12", "1_000", " 1", "1 ", "٣", "+0", "-00", "18446744073709551615",
    ];
    for sample in samples {
        assert_eq!(parse_i64(sample), sample.parse::<i64>().ok(), "for {:?}", sample);
    }
}

#[test]
fn starts_with_finds_a_prefix() {
    assert!(starts_with("http://host", "http://"));
    assert!(starts_with("http://", "http://"));
    assert!(starts_with("anything", ""));
    assert!(starts_with("", ""));
}

#[test]
fn starts_with_rejects_what_is_no_prefix() {
    assert!(!starts_with("http:/", "http://"));
    assert!(!starts_with("", "h"));
    assert!(!starts_with("xhttp://", "http://"));
    assert!(!starts_with("Http://host", "http://"));
}

#[test]
fn starts_with_compares_characters() {
    assert!(starts_with("éa", "é"));
    assert!(!starts_with("éa", "e"));
    assert!(starts_with("数据库", "数据"));
}

#[test]
fn copies_keep_the_strings() {
    let strings = vec!["a".to_string(), String::new(), "数据".to_string()];
    assert_eq!(copy_strings(&strings), strings);
    assert_eq!(copy_strings(&Vec::new()), Vec::<String>::new());
    assert_eq!(copy_optional_string(&Some("x".to_string())), Some("x".to_string()));
    assert_eq!(copy_optional_string(&None), None);
}

#[test]
fn join_writes_the_separator_between_the_parts() {
    let parts = vec!["a".to_string(), "b".to_string(), "c".to_string()];
    assert_eq!(join(&parts, ", "), "a, b, c");
    assert_eq!(join(&parts, ""), "abc");
    assert_eq!(join(&parts[..1].to_vec(), ", "), "a");
    assert_eq!(join(&Vec::new(), ", "), "");
    assert_eq!(join(&vec![String::new(), String::new()], "-"), "-");
}
