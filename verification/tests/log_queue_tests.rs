use boxmgr::log_queue::LogQueue;
use boxmgr::text::{format_log_line, LogSource};

fn s(v: &str) -> String {
    v.to_string()
}

#[test]
fn backlog_round_trip_within_bound() {
    let mut q = LogQueue::new(3);
    q.push_data(s("a"));
    q.push_data(s("b"));
    let backlog = q.subscribe();
    assert_eq!(backlog, vec![s("a"), s("b")]);
}

#[test]
fn backlog_overflow_evicts_oldest() {
    let mut q = LogQueue::new(3);
    q.push_data(s("a"));
    q.push_data(s("b"));
    q.push_data(s("c"));
    q.push_data(s("d"));
    let backlog = q.subscribe();
    assert_eq!(backlog, vec![s("b"), s("c"), s("d")]);
}

#[test]
fn backlog_exactly_at_bound() {
    let mut q = LogQueue::new(2);
    q.push_data(s("a"));
    q.push_data(s("b"));
    let backlog = q.subscribe();
    assert_eq!(backlog, vec![s("a"), s("b")]);
}

#[test]
fn subscribers_see_independent_snapshots() {
    let mut q = LogQueue::new(4);
    q.push_data(s("one"));
    let first = q.subscribe();
    q.push_data(s("two"));
    let second = q.subscribe();
    assert_eq!(first, vec![s("one")]);
    assert_eq!(second, vec![s("one"), s("two")]);
}

#[test]
fn format_log_line_stdout() {
    let line = format_log_line("2024-01-01 00:00:00", LogSource::Stdout, "hello world\n");
    assert_eq!(line, "[2024-01-01 00:00:00] stdout: hello world");
}

#[test]
fn format_log_line_stderr_trims_trailing_whitespace() {
    let line = format_log_line("2024-01-01 00:00:00", LogSource::Stderr, "oops \t\r\n");
    assert_eq!(line, "[2024-01-01 00:00:00] stderr: oops");
}

#[test]
fn format_log_line_internal_has_no_stream_tag() {
    let line = format_log_line("2024-01-01 00:00:00", LogSource::Internal, "service is started");
    assert_eq!(line, "[2024-01-01 00:00:00] service is started");
}

#[test]
fn push_line_stamps_with_the_clock() {
    let mut q = LogQueue::new(4);
    q.push_line(LogSource::Stdout, "hello");
    let backlog = q.subscribe();
    assert_eq!(backlog.len(), 1);
    let line = &backlog[0];
    assert!(line.starts_with('['));
    assert!(line.ends_with("] stdout: hello"));
    // "[" + "YYYY-MM-DD HH:MM:SS" + "] stdout: hello"
    assert_eq!(line.len(), 1 + 19 + 15);
}
