use cancelbot::text::{decimal_string, parse_decimal, starts_with, str_eq};
use cancelbot::{append_url, extract};

#[test]
fn relative_url_gets_host() {
    assert_eq!(append_url("https://api.example.com", "/builds/1"), "https://api.example.com/builds/1");
}

#[test]
fn absolute_url_kept() {
    assert_eq!(
        append_url("https://dev.azure.com", "https://dev.azure.com/o/p/timeline"),
        "https://dev.azure.com/o/p/timeline"
    );
}

#[test]
fn extract_middle() {
    assert_eq!(extract("match_recipient(\"a@b.org\")", "match_recipient(\"", "\")"), "a@b.org");
    assert_eq!(extract("forward(\"\")", "forward(\"", "\")"), "");
}

#[test]
fn decimal_spelling() {
    assert_eq!(decimal_string(0), "0");
    assert_eq!(decimal_string(7), "7");
    assert_eq!(decimal_string(1203), "1203");
    assert_eq!(decimal_string(u64::MAX), "18446744073709551615");
}

#[test]
fn decimal_reading() {
    assert_eq!(parse_decimal("10"), Some(10));
    assert_eq!(parse_decimal("007"), Some(7));
    assert_eq!(parse_decimal("18446744073709551615"), Some(u64::MAX));
    assert_eq!(parse_decimal("18446744073709551616"), None);
    assert_eq!(parse_decimal(""), None);
    assert_eq!(parse_decimal("1a"), None);
    assert_eq!(parse_decimal("-3"), None);
}

#[test]
fn string_comparisons() {
    assert!(str_eq("passed", "passed"));
    assert!(!str_eq("passed", "pass"));
    assert!(starts_with("https://x", "https://"));
    assert!(!starts_with("http://x", "https://"));
}
