use boxmgr::log_queue::LogQueue;
use boxmgr::text::{str_contains, str_eq, str_eq_ignore_ascii_case, str_starts_with, str_trim, str_trim_end};

#[test]
fn trimming_strips_ascii_whitespace_at_both_ends() {
    assert_eq!(str_trim("  hello world \t\r\n"), "hello world");
    assert_eq!(str_trim(""), "");
    assert_eq!(str_trim(" \t "), "");
    assert_eq!(str_trim("no-trim"), "no-trim");
    assert_eq!(str_trim_end(" keep-left "), " keep-left");
}

#[test]
fn substring_search() {
    assert!(str_contains("abcdef", "cde"));
    assert!(str_contains("abc", ""));
    assert!(str_contains("aaa", "aa"));
    assert!(!str_contains("abc", "abcd"));
    assert!(!str_contains("abcdef", "ce"));
}

#[test]
fn prefix_and_equality() {
    assert!(str_starts_with("sing-box version 1.0", "sing-box version"));
    assert!(!str_starts_with("sing", "sing-box"));
    assert!(str_eq("same", "same"));
    assert!(!str_eq("same", "sama"));
    assert!(str_eq_ignore_ascii_case("WaRn", "warn"));
    assert!(!str_eq_ignore_ascii_case("warn", "warne"));
    assert!(!str_eq_ignore_ascii_case("warn!", "warn?"));
}

#[test]
fn smallest_queue_keeps_only_the_newest_line() {
    let mut q = LogQueue::new(1);
    q.push_data("a".to_string());
    q.push_data("b".to_string());
    assert_eq!(q.subscribe(), vec!["b".to_string()]);
}
