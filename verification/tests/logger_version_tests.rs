use boxmgr::logger::{
    level_to_string, select_log_output, GlobalLoggerSlot, LogLevel, LogSink, Logger,
};
use boxmgr::error::FetchResult;
use boxmgr::script::{script_report, temp_script_name, Script, ScriptHandler, ScriptRunType};
use boxmgr::version::{core_output_valid, parse_version_output};

fn s(v: &str) -> String {
    v.to_string()
}

#[test]
fn level_parsing_is_case_insensitive() {
    assert_eq!(Logger::new("").unwrap().level, LogLevel::Warn);
    assert_eq!(Logger::new("warn").unwrap().level, LogLevel::Warn);
    assert_eq!(Logger::new("WARNING").unwrap().level, LogLevel::Warn);
    assert_eq!(Logger::new("Error").unwrap().level, LogLevel::Error);
    assert_eq!(Logger::new("info").unwrap().level, LogLevel::Info);
    assert_eq!(Logger::new("DEBUG").unwrap().level, LogLevel::Debug);
    assert_eq!(Logger::new("trace").unwrap().level, LogLevel::Trace);
}

#[test]
fn unknown_level_is_rejected_with_its_text() {
    let err = Logger::new("bogus").unwrap_err();
    assert_eq!(err, "invalid log level: bogus");
}

#[test]
fn filter_admits_records_up_to_its_level() {
    let logger = Logger::new("warn").unwrap();
    assert!(logger.enabled(&LogLevel::Error));
    assert!(logger.enabled(&LogLevel::Warn));
    assert!(!logger.enabled(&LogLevel::Info));
    assert!(!logger.enabled(&LogLevel::Trace));
}

#[test]
fn records_render_with_timestamp_and_level() {
    let logger = Logger::new("info").unwrap();
    let line = logger.render("2024-01-01 00:00:00", &LogLevel::Info, "hello\n");
    assert_eq!(line, "[2024-01-01 00:00:00] [info] hello\n");
}

#[test]
fn level_names() {
    assert_eq!(level_to_string(&LogLevel::Error), "error");
    assert_eq!(level_to_string(&LogLevel::Warn), "warn");
    assert_eq!(level_to_string(&LogLevel::Info), "info");
    assert_eq!(level_to_string(&LogLevel::Debug), "debug");
    assert_eq!(level_to_string(&LogLevel::Trace), "trace");
}

#[test]
fn one_global_logger_at_most() {
    let mut port = GlobalLoggerSlot::new();
    assert!(Logger::new("info").unwrap().set_global(&mut port).is_ok());
    let second = Logger::new("debug").unwrap().set_global(&mut port);
    assert_eq!(second.unwrap_err(), "a global logger is already installed");
    assert_eq!(port.logger.as_ref().unwrap().level, LogLevel::Info);
}

#[test]
fn sink_selection() {
    assert!(matches!(select_log_output(&None), LogSink::StdoutSink));
    assert!(matches!(select_log_output(&Some(s(""))), LogSink::StdoutSink));
    assert!(matches!(select_log_output(&Some(s("stdout"))), LogSink::StdoutSink));
    assert!(matches!(select_log_output(&Some(s("stderr"))), LogSink::StderrSink));
    assert!(matches!(select_log_output(&Some(s("off"))), LogSink::NopSink));
    match select_log_output(&Some(s("box.log"))) {
        LogSink::FileSink(p) => assert_eq!(p, "box.log"),
        _ => panic!("a file path selects the file sink"),
    }
}

#[test]
fn version_is_parsed_from_the_announcing_line() {
    let out = "sing-box version 1.8.0\nTags: with_gvisor,with_quic\n";
    assert_eq!(parse_version_output(out), Some(s("1.8.0")));
    assert!(core_output_valid(out));
}

#[test]
fn version_line_is_trimmed_and_the_last_one_wins() {
    let out = "  sing-box version  1.0.0  \nother\nsing-box version 2.0.0";
    assert_eq!(parse_version_output(out), Some(s("2.0.0")));
}

#[test]
fn output_without_version_line_is_invalid() {
    assert_eq!(parse_version_output("no such marker\n"), None);
    assert!(!core_output_valid("garbage"));
}

#[test]
fn script_run_type_codes() {
    assert_eq!(ScriptRunType::Disabled.code(), 0);
    assert_eq!(ScriptRunType::BeforeStart.code(), 1);
    assert_eq!(ScriptRunType::AfterStart.code(), 2);
    assert_eq!(ScriptRunType::BeforeClose.code(), 3);
    assert_eq!(ScriptRunType::AfterClose.code(), 4);
}

#[test]
fn script_slots_answer_to_their_lifecycle_point() {
    let handler = ScriptHandler::new(
        FetchResult::Found(Script { tag: s("a"), content: s("echo a") }),
        FetchResult::Missing,
        FetchResult::Missing,
        FetchResult::Found(Script { tag: s("d"), content: s("echo d") }),
    )
    .expect("no read fails");
    assert_eq!(
        handler.script_for(ScriptRunType::BeforeStart).as_ref().unwrap().tag,
        "a"
    );
    assert!(handler.script_for(ScriptRunType::AfterStart).is_none());
    assert!(handler.script_for(ScriptRunType::BeforeClose).is_none());
    assert_eq!(
        handler.script_for(ScriptRunType::AfterClose).as_ref().unwrap().content,
        "echo d"
    );
}

#[test]
fn temp_script_names_carry_label_token_and_extension() {
    assert_eq!(
        temp_script_name("before_start_script", "deadbeef", "sh"),
        "before_start_script_deadbeef.sh"
    );
    assert_eq!(ScriptRunType::BeforeStart.label(), "before_start_script");
    assert_eq!(ScriptRunType::AfterClose.label(), "after_close_script");
}

#[test]
fn script_reports_append_streams_only_when_non_empty() {
    assert_eq!(script_report("exit status: 0", "", ""), "exit code: exit status: 0");
    assert_eq!(
        script_report("exit status: 1", "out", ""),
        "exit code: exit status: 1; stdout: out"
    );
    assert_eq!(
        script_report("exit status: 1", "out", "err"),
        "exit code: exit status: 1; stdout: out; stderr: err"
    );
    assert_eq!(
        script_report("exit status: 2", "", "err"),
        "exit code: exit status: 2; stderr: err"
    );
}

#[test]
fn each_script_read_failure_names_its_point() {
    let fail = |e: &str| FetchResult::<Script>::Failed(s(e));
    let ok = || FetchResult::<Script>::Missing;
    assert_eq!(
        ScriptHandler::new(fail("x"), ok(), ok(), ok()).unwrap_err(),
        "get before start script failed: x"
    );
    assert_eq!(
        ScriptHandler::new(ok(), fail("x"), ok(), ok()).unwrap_err(),
        "get after start script failed: x"
    );
    assert_eq!(
        ScriptHandler::new(ok(), ok(), fail("x"), ok()).unwrap_err(),
        "get before close script failed: x"
    );
    assert_eq!(
        ScriptHandler::new(ok(), ok(), ok(), fail("x")).unwrap_err(),
        "get after close script failed: x"
    );
}
