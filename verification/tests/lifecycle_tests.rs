use boxmgr::config_doc::ConfigValue;
use boxmgr::error::{FetchResult, ServiceError};
use boxmgr::metrics::{apply_traffic, TrafficMessage};
use boxmgr::script::Script;
use boxmgr::supervisor::{auto_start_decision, ConfigRecord, InstanceState, Supervisor};

fn s(v: &str) -> String {
    v.to_string()
}

fn record(tag: &str) -> ConfigRecord {
    ConfigRecord {
        id: s("id-1"),
        tag: s(tag),
        config: ConfigValue::Obj(Vec::new()),
    }
}

fn none() -> FetchResult<Script> {
    FetchResult::Missing
}

fn start(sup: &mut Supervisor, tag: &str) {
    let inst = InstanceState::new(
        s("/usr/bin/sing-box"),
        record(tag),
        none(),
        none(),
        none(),
        none(),
        s("fresh-token"),
        &mut sup.board,
    )
    .expect("no script read fails");
    sup.install_instance(inst);
}

#[test]
fn at_most_one_instance_and_full_teardown_between_runs() {
    let mut sup = Supervisor::new();
    assert!(!sup.has_instance());
    start(&mut sup, "first");
    assert!(sup.has_instance());
    // a running instance accumulates metrics
    let m = TrafficMessage { connection_count: 3, upload_traffic: 10, download_traffic: 20 };
    apply_traffic(&mut sup.board, &m);
    assert_eq!(sup.status_snapshot().download_traffic, 20);
    // restart: the teardown completes - slot empty, metrics zeroed -
    // before the next instance is constructed
    sup.stop();
    assert!(!sup.has_instance());
    let snap = sup.status_snapshot();
    assert!(!snap.is_running);
    assert_eq!(snap.connection_count, 0);
    assert_eq!(snap.upload_traffic, 0);
    assert_eq!(snap.download_traffic, 0);
    assert_eq!(snap.memory_usage, 0);
    start(&mut sup, "second");
    assert!(sup.has_instance());
    assert_eq!(sup.status_snapshot().running_config, "second");
}

#[test]
fn stop_on_a_stopped_supervisor_is_a_silent_no_op() {
    let mut sup = Supervisor::new();
    let signals_before = sup.board.signal_count;
    let backlog_before = sup.log_subscribe();
    sup.stop();
    assert!(!sup.has_instance());
    assert_eq!(sup.board.signal_count, signals_before);
    assert_eq!(sup.log_subscribe(), backlog_before);
}

#[test]
fn restart_without_active_config_reports_and_installs_nothing() {
    let mut sup = Supervisor::new();
    sup.stop();
    let prep = Supervisor::prepare_start(
        FetchResult::Found(s("/usr/bin/sing-box")),
        FetchResult::<ConfigRecord>::Missing,
    );
    match prep {
        Err(e) => {
            assert!(matches!(e, ServiceError::ConfigNotSet));
            assert_eq!(e.message(), "config is not set");
        },
        Ok(_) => panic!("a missing configuration must be reported"),
    }
    assert!(!sup.has_instance());
    assert!(sup.current_config().is_none());
}

#[test]
fn each_fetch_failure_names_its_category() {
    let core_missing = Supervisor::prepare_start(
        FetchResult::<String>::Missing,
        FetchResult::Found(record("t")),
    );
    match core_missing {
        Err(e) => assert_eq!(e.message(), "core path is not set"),
        Ok(_) => panic!("missing core path must be reported"),
    }
    let core_failed = Supervisor::prepare_start(
        FetchResult::<String>::Failed(s("db down")),
        FetchResult::Found(record("t")),
    );
    match core_failed {
        Err(e) => assert_eq!(e.message(), "get core path failed: db down"),
        Ok(_) => panic!("unreadable core path must be reported"),
    }
    let config_failed = Supervisor::prepare_start(
        FetchResult::Found(s("/bin/core")),
        FetchResult::<ConfigRecord>::Failed(s("db down")),
    );
    match config_failed {
        Err(e) => assert_eq!(e.message(), "get config failed: db down"),
        Ok(_) => panic!("unreadable configuration must be reported"),
    }
    let ok = Supervisor::prepare_start(
        FetchResult::Found(s("/bin/core")),
        FetchResult::Found(record("t")),
    );
    assert!(ok.is_ok());
    assert_eq!(
        ServiceError::StartServiceFailed(s("spawn failed")).message(),
        "start service failed: spawn failed"
    );
}

#[test]
fn instance_records_tag_and_resolved_endpoint() {
    let mut sup = Supervisor::new();
    let signals_before = sup.board.signal_count;
    let inst = InstanceState::new(
        s("/usr/bin/sing-box"),
        record("night"),
        none(),
        none(),
        none(),
        none(),
        s("tok"),
        &mut sup.board,
    )
    .expect("no script read fails");
    assert_eq!(sup.board.signal_count, signals_before + 1);
    assert_eq!(sup.status_snapshot().running_config, "night");
    assert_eq!(inst.listen, "127.0.0.1:9090");
    assert_eq!(inst.secret, Some(s("tok")));
    assert_eq!(inst.config_tag, "night");
    sup.install_instance(inst);
    assert!(sup.current_config().is_some());
}

#[test]
fn restart_prepare_tears_down_then_builds() {
    let mut sup = Supervisor::new();
    start(&mut sup, "first");
    let m = TrafficMessage { connection_count: 1, upload_traffic: 5, download_traffic: 6 };
    apply_traffic(&mut sup.board, &m);
    let r = sup.restart_prepare(
        FetchResult::Found(s("/usr/bin/sing-box")),
        FetchResult::Found(record("second")),
        none(),
        none(),
        none(),
        none(),
        s("tok2"),
    );
    let inst = r.expect("restart with both inputs succeeds");
    // the prior instance was fully torn down before construction
    assert!(!sup.has_instance());
    let snap = sup.status_snapshot();
    assert_eq!(snap.upload_traffic, 0);
    assert_eq!(snap.download_traffic, 0);
    // and the new run is prepared
    assert_eq!(snap.running_config, "second");
    assert_eq!(inst.listen, "127.0.0.1:9090");
    assert_eq!(inst.secret, Some(s("tok2")));
    sup.install_instance(inst);
    assert!(sup.has_instance());
}

#[test]
fn restart_prepare_without_config_installs_nothing() {
    let mut sup = Supervisor::new();
    start(&mut sup, "first");
    let r = sup.restart_prepare(
        FetchResult::Found(s("/usr/bin/sing-box")),
        FetchResult::<ConfigRecord>::Missing,
        none(),
        none(),
        none(),
        none(),
        s("tok"),
    );
    match r {
        Err(e) => assert!(matches!(e, ServiceError::ConfigNotSet)),
        Ok(_) => panic!("a missing configuration must be reported"),
    }
    assert!(!sup.has_instance());
}

#[test]
fn auto_start_only_on_a_set_flag() {
    assert!(auto_start_decision(&FetchResult::Found(true)));
    assert!(!auto_start_decision(&FetchResult::Found(false)));
    assert!(!auto_start_decision(&FetchResult::<bool>::Missing));
    // a failed read is logged, not fatal: the daemon boots without starting
    assert!(!auto_start_decision(&FetchResult::<bool>::Failed(s("db down"))));
}

#[test]
fn failed_script_read_aborts_construction_with_its_point() {
    let mut sup = Supervisor::new();
    let r = sup.restart_prepare(
        FetchResult::Found(s("/usr/bin/sing-box")),
        FetchResult::Found(record("night")),
        FetchResult::<Script>::Failed(s("db down")),
        none(),
        none(),
        none(),
        s("tok"),
    );
    match r {
        Err(e) => assert_eq!(
            e.message(),
            "start service failed: get before start script failed: db down"
        ),
        Ok(_) => panic!("a failed script read must abort the construction"),
    }
    assert!(!sup.has_instance());
    // the tag was recorded before the failing read, as construction
    // fails fast in order
    assert_eq!(sup.status_snapshot().running_config, "night");
}

#[test]
fn first_failing_script_read_in_lifecycle_order_names_the_error() {
    let r = InstanceState::new(
        s("/usr/bin/sing-box"),
        record("t"),
        none(),
        FetchResult::<Script>::Failed(s("a")),
        none(),
        FetchResult::<Script>::Failed(s("b")),
        s("tok"),
        &mut boxmgr::status::StatusBoard::new(),
    );
    match r {
        Err(m) => assert_eq!(m, "get after start script failed: a"),
        Ok(_) => panic!("a failed script read must abort the construction"),
    }
}

#[test]
fn loaded_scripts_fill_their_slots() {
    let mut board = boxmgr::status::StatusBoard::new();
    let inst = InstanceState::new(
        s("/usr/bin/sing-box"),
        record("t"),
        FetchResult::Found(Script { tag: s("hook"), content: s("echo hi") }),
        none(),
        none(),
        none(),
        s("tok"),
        &mut board,
    )
    .expect("all reads succeed");
    assert_eq!(inst.scripts.before_start.as_ref().unwrap().tag, "hook");
    assert!(inst.scripts.after_start.is_none());
    assert!(inst.scripts.before_close.is_none());
    assert!(inst.scripts.after_close.is_none());
}
