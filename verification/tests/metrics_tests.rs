use boxmgr::config_doc::ConfigValue;
use boxmgr::metrics::{
    apply_memory, apply_speed, apply_traffic, memory_from_doc, speed_from_doc, traffic_from_doc,
    ClashApiType,
};
use boxmgr::status::StatusBoard;

fn s(v: &str) -> String {
    v.to_string()
}

fn obj(entries: Vec<(&str, ConfigValue)>) -> ConfigValue {
    ConfigValue::Obj(entries.into_iter().map(|(k, v)| (s(k), v)).collect())
}

#[test]
fn traffic_message_updates_board_with_exactly_one_signal() {
    let doc = obj(vec![
        ("connections", ConfigValue::Arr(vec![ConfigValue::Null, ConfigValue::Null])),
        ("downloadTotal", ConfigValue::UInt(100)),
        ("uploadTotal", ConfigValue::UInt(50)),
    ]);
    let m = traffic_from_doc(&doc).expect("well-formed traffic message");
    assert_eq!(m.connection_count, 2);
    assert_eq!(m.download_traffic, 100);
    assert_eq!(m.upload_traffic, 50);
    let mut board = StatusBoard::new();
    let before = board.signal_count;
    apply_traffic(&mut board, &m);
    assert_eq!(board.status.connection_count, 2);
    assert_eq!(board.status.download_traffic, 100);
    assert_eq!(board.status.upload_traffic, 50);
    assert_eq!(board.signal_count, before + 1);
    // fields owned by the other subscriptions are untouched
    assert_eq!(board.status.upload_speed, 0);
    assert_eq!(board.status.memory_usage, 0);
}

#[test]
fn traffic_without_connection_list_counts_zero() {
    let doc = obj(vec![
        ("downloadTotal", ConfigValue::UInt(7)),
        ("uploadTotal", ConfigValue::UInt(8)),
    ]);
    let m = traffic_from_doc(&doc).expect("connections are optional");
    assert_eq!(m.connection_count, 0);
}

#[test]
fn traffic_with_null_connections_counts_zero() {
    let doc = obj(vec![
        ("connections", ConfigValue::Null),
        ("downloadTotal", ConfigValue::UInt(1)),
        ("uploadTotal", ConfigValue::UInt(2)),
    ]);
    assert_eq!(traffic_from_doc(&doc).expect("null is allowed").connection_count, 0);
}

#[test]
fn malformed_traffic_messages_are_rejected() {
    let missing_total = obj(vec![("uploadTotal", ConfigValue::UInt(1))]);
    assert!(traffic_from_doc(&missing_total).is_none());
    let bad_connections = obj(vec![
        ("connections", ConfigValue::Str(s("two"))),
        ("downloadTotal", ConfigValue::UInt(1)),
        ("uploadTotal", ConfigValue::UInt(2)),
    ]);
    assert!(traffic_from_doc(&bad_connections).is_none());
    assert!(traffic_from_doc(&ConfigValue::Null).is_none());
}

#[test]
fn speed_message_updates_both_rates() {
    let doc = obj(vec![("up", ConfigValue::UInt(11)), ("down", ConfigValue::UInt(22))]);
    let m = speed_from_doc(&doc).expect("well-formed speed message");
    let mut board = StatusBoard::new();
    apply_speed(&mut board, &m);
    assert_eq!(board.status.upload_speed, 11);
    assert_eq!(board.status.download_speed, 22);
    assert_eq!(board.signal_count, 1);
}

#[test]
fn memory_message_updates_resident_bytes() {
    let doc = obj(vec![("inuse", ConfigValue::UInt(4096))]);
    let m = memory_from_doc(&doc).expect("well-formed memory message");
    let mut board = StatusBoard::new();
    apply_memory(&mut board, &m);
    assert_eq!(board.status.memory_usage, 4096);
    assert_eq!(board.signal_count, 1);
    assert!(memory_from_doc(&obj(vec![])).is_none());
}

#[test]
fn urls_name_each_subscription() {
    let secret = Some(s("abc"));
    assert_eq!(
        ClashApiType::Traffic.create_url("127.0.0.1:9090", &secret),
        "ws://127.0.0.1:9090/connections?token=abc"
    );
    assert_eq!(
        ClashApiType::Speed.create_url("127.0.0.1:9090", &None),
        "ws://127.0.0.1:9090/traffic"
    );
    assert_eq!(
        ClashApiType::Memory.create_url("[::1]:9090", &None),
        "ws://[::1]:9090/memory"
    );
}
