use boxmgr::term::{
    grace_wait_decision, graceful_stop_decision, GraceWaitOutcome, GracefulStep, SignalOutcome,
    GRACE_PERIOD_SECS,
};
use boxmgr::upload::{
    temp_path_for, upload_advance, upload_cleanup, UploadError, UploadState,
};

fn s(v: &str) -> String {
    v.to_string()
}

#[test]
fn graceful_signal_starts_the_grace_period() {
    assert_eq!(graceful_stop_decision(&SignalOutcome::Sent), GracefulStep::AwaitExit);
}

#[test]
fn failed_signal_falls_back_to_force_kill() {
    assert_eq!(graceful_stop_decision(&SignalOutcome::SendFailed), GracefulStep::ForceKill);
}

#[test]
fn missing_pid_gives_up() {
    assert_eq!(graceful_stop_decision(&SignalOutcome::NoPid), GracefulStep::GiveUp);
}

#[test]
fn ignoring_the_signal_for_the_grace_period_forces_the_kill() {
    // the process ignored the graceful signal until the timer fired:
    // at the end of the grace period it is force-terminated
    assert_eq!(GRACE_PERIOD_SECS, 5);
    assert!(grace_wait_decision(&GraceWaitOutcome::TimerFired));
    assert!(!grace_wait_decision(&GraceWaitOutcome::ProcessExited));
}

#[test]
fn upload_success_path_publishes() {
    let st = UploadState::Writing;
    let st = upload_advance(st, true, String::new());
    let st = upload_advance(st, true, String::new());
    let st = upload_advance(st, true, String::new());
    assert!(matches!(st, UploadState::Done));
    assert!(!upload_cleanup(&st));
}

#[test]
fn failed_validation_removes_temp_and_never_publishes() {
    let st = upload_advance(UploadState::Writing, true, String::new());
    let st = upload_advance(st, false, s("no version line"));
    match &st {
        UploadState::Failed(UploadError::ValidateFailed(e)) => {
            assert_eq!(e, "no version line")
        },
        _ => panic!("validation failure must name its stage"),
    }
    // the temporary file is removed, and no later outcome can publish
    assert!(upload_cleanup(&st));
    let st = upload_advance(st, true, String::new());
    assert!(!matches!(st, UploadState::Done));
    assert!(matches!(st, UploadState::Failed(_)));
}

#[test]
fn each_upload_stage_names_its_error() {
    let w = upload_advance(UploadState::Writing, false, s("io"));
    match &w {
        UploadState::Failed(e) => assert_eq!(e.message(), "failed to receive core: io"),
        _ => panic!("write failure expected"),
    }
    let v = upload_advance(UploadState::Validating, false, s("bad"));
    match &v {
        UploadState::Failed(e) => assert_eq!(e.message(), "invalid core: bad"),
        _ => panic!("validate failure expected"),
    }
    let p = upload_advance(UploadState::Publishing, false, s("exists"));
    match &p {
        UploadState::Failed(e) => assert_eq!(e.message(), "failed to rename temp file: exists"),
        _ => panic!("publish failure expected"),
    }
}

#[test]
fn temp_path_replaces_or_appends_the_extension() {
    assert_eq!(temp_path_for("sing-box"), "sing-box.temp");
    assert_eq!(temp_path_for("sing-box.exe"), "sing-box.temp");
    assert_eq!(temp_path_for("/data/core.bin"), "/data/core.temp");
    assert_eq!(temp_path_for(".hidden"), ".hidden.temp");
    assert_eq!(temp_path_for("dir.d/name"), "dir.d/name.temp");
    assert_eq!(temp_path_for("a\\b.exe"), "a\\b.temp");
}
