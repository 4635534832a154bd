use uistate::logfmt::format_log_entry;
use uistate::numfmt::{i32_dec_string, u32_dec_string};
use uistate::payload::{json_escape_str, notification_payload};
use uistate::textscan::{indicates_success, str_contains};

#[test]
fn success_marker_without_space_is_found() {
    assert!(indicates_success("{\"success\":true,\"x\":1}"));
}

#[test]
fn success_marker_with_space_is_found() {
    assert!(indicates_success("{ \"success\": true }"));
}

#[test]
fn missing_success_marker_is_not_found() {
    assert!(!indicates_success("{\"success\":false}"));
    assert!(!indicates_success(""));
    assert!(!indicates_success("success=true"));
}

#[test]
fn substring_search_finds_and_rejects() {
    assert!(str_contains("hello world", "lo wo"));
    assert!(str_contains("hello world", ""));
    assert!(str_contains("aaa", "aaa"));
    assert!(!str_contains("hello world", "worlds"));
    assert!(!str_contains("ab", "abc"));
}

#[test]
fn json_escaping_handles_quotes_and_controls() {
    assert_eq!(json_escape_str("plain"), "plain");
    assert_eq!(json_escape_str("a\"b"), "a\\\"b");
    assert_eq!(json_escape_str("a\\b"), "a\\\\b");
    assert_eq!(json_escape_str("line\nbreak\ttab\r"), "line\\nbreak\\ttab\\r");
    assert_eq!(json_escape_str("\u{8}\u{c}"), "\\b\\f");
    assert_eq!(json_escape_str("\u{1}\u{1f}"), "\\u0001\\u001f");
}

#[test]
fn notification_payload_is_exact() {
    let out = notification_payload("Build done", "All \"10\" issues\nclosed", "2026-01-02T03:04:05Z");
    let expected = "{\"embeds\":[{\"title\":\"Build done\",\"description\":\"All \\\"10\\\" issues\\nclosed\",\"color\":5814783,\"footer\":{\"text\":\"BOB Monitor\"},\"timestamp\":\"2026-01-02T03:04:05Z\"}]}";
    assert_eq!(out, expected);
}

#[test]
fn log_entry_uppercases_the_level() {
    let entry = format_log_entry("2026-01-02 03:04:05.678", "info", "monitor started");
    assert_eq!(entry, "[2026-01-02 03:04:05.678] [INFO] monitor started\n");
}

#[test]
fn log_entry_keeps_an_uppercase_level() {
    let entry = format_log_entry("t", "ERROR", "boom");
    assert_eq!(entry, "[t] [ERROR] boom\n");
}

#[test]
fn decimal_strings_are_exact() {
    assert_eq!(u32_dec_string(0), "0");
    assert_eq!(u32_dec_string(907), "907");
    assert_eq!(i32_dec_string(-123), "-123");
    assert_eq!(i32_dec_string(0), "0");
    assert_eq!(i32_dec_string(2147483647), "2147483647");
    assert_eq!(i32_dec_string(-2147483648), "-2147483648");
}
