use boxmgr::pump::{line_is_ready, pump_enter_plan, pump_exit_plan, pump_step_plan, PumpAction, PumpEvent};
use boxmgr::script::ScriptRunType;
use boxmgr::supervisor::{start_plan, StartStep};

const TS: &str = "2024-01-01 00:00:00";

#[test]
fn ready_line_logs_then_runs_after_start_then_signals() {
    let event = PumpEvent::StdoutLine("INFO sing-box started (0.01s)\n".to_string());
    let (actions, done) = pump_step_plan(&event, TS);
    assert!(!done);
    assert_eq!(actions.len(), 3);
    match &actions[0] {
        PumpAction::PushLog(l) => {
            assert_eq!(l, "[2024-01-01 00:00:00] stdout: INFO sing-box started (0.01s)")
        },
        _ => panic!("first action must log the line"),
    }
    assert!(matches!(actions[1], PumpAction::RunScript(ScriptRunType::AfterStart)));
    assert!(matches!(actions[2], PumpAction::SignalReady));
}

#[test]
fn ordinary_line_only_logs() {
    let event = PumpEvent::StderrLine("WARN something odd\n".to_string());
    let (actions, done) = pump_step_plan(&event, TS);
    assert!(!done);
    assert_eq!(actions.len(), 1);
    match &actions[0] {
        PumpAction::PushLog(l) => assert_eq!(l, "[2024-01-01 00:00:00] stderr: WARN something odd"),
        _ => panic!("expected a log push"),
    }
}

#[test]
fn empty_read_does_nothing() {
    let (actions, done) = pump_step_plan(&PumpEvent::StdoutLine(String::new()), TS);
    assert!(!done);
    assert!(actions.is_empty());
}

#[test]
fn readiness_marker_on_stderr_counts_too() {
    let event = PumpEvent::StderrLine("sing-box started".to_string());
    let (actions, _done) = pump_step_plan(&event, TS);
    assert_eq!(actions.len(), 3);
}

#[test]
fn cancellation_runs_before_close_then_terminates() {
    let (actions, done) = pump_step_plan(&PumpEvent::Cancelled, TS);
    assert!(done);
    assert_eq!(actions.len(), 2);
    assert!(matches!(actions[0], PumpAction::RunScript(ScriptRunType::BeforeClose)));
    assert!(matches!(actions[1], PumpAction::TerminateProcess));
}

#[test]
fn natural_exit_ends_loop_without_before_close() {
    let (actions, done) = pump_step_plan(&PumpEvent::Exited, TS);
    assert!(done);
    assert!(actions.is_empty());
}

#[test]
fn enter_plan_marks_running_then_logs() {
    let actions = pump_enter_plan(TS);
    assert_eq!(actions.len(), 3);
    assert!(matches!(actions[0], PumpAction::SetRunning(true)));
    assert!(matches!(actions[1], PumpAction::NotifyStatus));
    match &actions[2] {
        PumpAction::PushLog(l) => assert_eq!(l, "[2024-01-01 00:00:00] service is started"),
        _ => panic!("expected the start notice"),
    }
}

#[test]
fn exit_plan_runs_after_close_before_anything_else() {
    let actions = pump_exit_plan(TS);
    assert_eq!(actions.len(), 5);
    assert!(matches!(actions[0], PumpAction::RunScript(ScriptRunType::AfterClose)));
    match &actions[1] {
        PumpAction::PushLog(l) => assert_eq!(l, "[2024-01-01 00:00:00] service is closed"),
        _ => panic!("expected the close notice"),
    }
    assert!(matches!(actions[2], PumpAction::CancelToken));
    assert!(matches!(actions[3], PumpAction::SetRunning(false)));
    assert!(matches!(actions[4], PumpAction::NotifyStatus));
}

#[test]
fn marker_detection() {
    assert!(line_is_ready("xx sing-box started yy"));
    assert!(!line_is_ready("sing-box starting"));
    assert!(!line_is_ready(""));
}

#[test]
fn before_start_script_precedes_config_feed() {
    let plan = start_plan();
    let script_at = plan
        .iter()
        .position(|s| matches!(s, StartStep::RunBeforeStartScript))
        .expect("plan runs the before-start script");
    let feed_at = plan
        .iter()
        .position(|s| matches!(s, StartStep::FeedConfig))
        .expect("plan feeds the configuration");
    let spawn_at = plan
        .iter()
        .position(|s| matches!(s, StartStep::SpawnProcess))
        .expect("plan spawns the child");
    assert!(script_at < spawn_at);
    assert!(spawn_at < feed_at);
}
