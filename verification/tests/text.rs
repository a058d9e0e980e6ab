use rust_panel::api::middleware::trim_start_matches;
use rust_panel::common::text::{contains, decimal_string, replace_text, starts_with, text_eq};

#[test]
fn replace_all_occurrences_left_to_right() {
    assert_eq!(replace_text("aaa", "aa", "b"), "ba");
    assert_eq!(replace_text("daemonize no\nx daemonize no", "daemonize no", "daemonize yes"), "daemonize yes\nx daemonize yes");
    assert_eq!(replace_text("", "x", "y"), "");
    assert_eq!(replace_text("abc", "abcd", "z"), "abc");
    assert_eq!(replace_text("a\\b\\c", "\\", "/"), "a/b/c");
}

#[test]
fn substring_tests() {
    assert!(contains("/api/v1/login/sign", "/api/v1/login"));
    assert!(!contains("/static/app.js", "/api"));
    assert!(contains("abc", ""));
    assert!(starts_with("\\\\?\\C:\\x", "\\\\?\\"));
    assert!(!starts_with("ab", "abc"));
    assert!(text_eq("same", "same"));
    assert!(!text_eq("same", "Same"));
}

#[test]
fn decimal_text() {
    assert_eq!(decimal_string(0), "0");
    assert_eq!(decimal_string(7), "7");
    assert_eq!(decimal_string(1700000000000), "1700000000000");
    assert_eq!(decimal_string(u64::MAX), u64::MAX.to_string());
}

#[test]
fn trim_repeated_prefix() {
    assert_eq!(trim_start_matches("Bearer Bearer abc", "Bearer "), "abc");
    assert_eq!(trim_start_matches("abc", "Bearer "), "abc");
    assert_eq!(trim_start_matches("abc", ""), "abc");
    assert_eq!(trim_start_matches("Bearer ", "Bearer "), "");
}
