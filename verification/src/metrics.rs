//! Intake of control-plane metrics: the three push-style subscriptions
//! the poller opens against the core process, the address each connects
//! to, what its messages must look like, and how each message lands on
//! the status board. The network connections themselves are the caller's
//! work; decoded documents are handed in as values.

use vstd::prelude::*;

use crate::config_doc::{lookup, obj_get, ConfigValue};
use crate::normalize::obj_entries;
use crate::status::StatusBoard;

verus! {

/// The three control-plane subscriptions.
#[derive(Clone, Copy, PartialEq, Eq, Structural, Debug)]
pub enum ClashApiType {
    /// Connection list and cumulative transfer totals.
    Traffic,
    /// Instantaneous transfer rates.
    Speed,
    /// Resident memory of the core process.
    Memory,
}

/// The endpoint path of each subscription.
pub open spec fn api_path(kind: ClashApiType) -> Seq<char> {
    match kind {
        ClashApiType::Traffic => "/connections"@,
        ClashApiType::Speed => "/traffic"@,
        ClashApiType::Memory => "/memory"@,
    }
}

/// The websocket address of a subscription: the resolved listen address,
/// the endpoint path, and the secret as a query credential if there is
/// one.
pub open spec fn url_spec(kind: ClashApiType, listen: Seq<char>, secret: Option<Seq<char>>)
    -> Seq<char> {
    let base = "ws://"@ + listen + api_path(kind);
    match secret {
        Some(s) => base + "?token="@ + s,
        None => base,
    }
}

impl ClashApiType {
    /// Render the websocket address this subscription connects to.
    pub fn create_url(&self, listen: &str, secret: &Option<String>) -> (r: String)
        ensures
            (match secret {
                Some(s) => r@ == url_spec(*self, listen@, Some(s@)),
                None => r@ == url_spec(*self, listen@, None),
            }),
    {
        let mut r = String::from_str("ws://");
        r.append(listen);
        match self {
            ClashApiType::Traffic => r.append("/connections"),
            ClashApiType::Speed => r.append("/traffic"),
            ClashApiType::Memory => r.append("/memory"),
        }
        match secret {
            Some(s) => {
                r.append("?token=");
                r.append(s.as_str());
                proof {
                    assert(r@ =~= url_spec(*self, listen@, Some(s@)));
                }
            },
            None => {
                proof {
                    assert(r@ =~= url_spec(*self, listen@, None));
                }
            },
        }
        r
    }
}

/// A decoded traffic message: connection count and cumulative totals.
pub struct TrafficMessage {
    pub connection_count: usize,
    pub upload_traffic: u64,
    pub download_traffic: u64,
}

/// A decoded speed message: instantaneous rates.
pub struct SpeedMessage {
    pub upload_speed: u64,
    pub download_speed: u64,
}

/// A decoded memory message: resident bytes in use.
pub struct MemoryMessage {
    pub memory_usage: u64,
}

/// A document is a well-formed traffic message: both totals present as
/// non-negative integers, and the connection list, when present and not
/// null, an array.
pub open spec fn traffic_parse_ok(es: Seq<(String, ConfigValue)>) -> bool {
    &&& (match lookup(es, "connections"@) {
        None => true,
        Some(ConfigValue::Null) => true,
        Some(ConfigValue::Arr(_)) => true,
        _ => false,
    })
    &&& lookup(es, "downloadTotal"@) matches Some(ConfigValue::UInt(_))
    &&& lookup(es, "uploadTotal"@) matches Some(ConfigValue::UInt(_))
}

/// The connection count a traffic message reports: the array's length,
/// or zero when the list is absent or null.
pub open spec fn traffic_conn_count(es: Seq<(String, ConfigValue)>) -> nat {
    match lookup(es, "connections"@) {
        Some(ConfigValue::Arr(a)) => a@.len(),
        _ => 0,
    }
}

/// The cumulative download total a traffic message reports.
pub open spec fn traffic_download(es: Seq<(String, ConfigValue)>) -> u64 {
    match lookup(es, "downloadTotal"@) {
        Some(ConfigValue::UInt(d)) => d,
        _ => 0,
    }
}

/// The cumulative upload total a traffic message reports.
pub open spec fn traffic_upload(es: Seq<(String, ConfigValue)>) -> u64 {
    match lookup(es, "uploadTotal"@) {
        Some(ConfigValue::UInt(u)) => u,
        _ => 0,
    }
}

/// Decode a traffic message from a document, or reject it.
pub fn traffic_from_doc(doc: &ConfigValue) -> (r: Option<TrafficMessage>)
    ensures
        (match r {
            Some(m) => {
                &&& *doc is Obj
                &&& traffic_parse_ok(obj_entries(*doc))
                &&& m.connection_count == traffic_conn_count(obj_entries(*doc))
                &&& m.download_traffic == traffic_download(obj_entries(*doc))
                &&& m.upload_traffic == traffic_upload(obj_entries(*doc))
            },
            None => !(*doc is Obj && traffic_parse_ok(obj_entries(*doc))),
        }),
{
    let es = match doc {
        ConfigValue::Obj(es) => es,
        _ => {
            return None;
        },
    };
    let connection_count: usize = match obj_get(es, "connections") {
        None => 0,
        Some(ConfigValue::Null) => 0,
        Some(ConfigValue::Arr(a)) => a.len(),
        Some(_) => {
            return None;
        },
    };
    let download_traffic: u64 = match obj_get(es, "downloadTotal") {
        Some(ConfigValue::UInt(d)) => *d,
        _ => {
            return None;
        },
    };
    let upload_traffic: u64 = match obj_get(es, "uploadTotal") {
        Some(ConfigValue::UInt(u)) => *u,
        _ => {
            return None;
        },
    };
    Some(TrafficMessage { connection_count, upload_traffic, download_traffic })
}

/// A document is a well-formed speed message: both rates present as
/// non-negative integers.
pub open spec fn speed_parse_ok(es: Seq<(String, ConfigValue)>) -> bool {
    &&& lookup(es, "up"@) matches Some(ConfigValue::UInt(_))
    &&& lookup(es, "down"@) matches Some(ConfigValue::UInt(_))
}

/// The upload rate a speed message reports.
pub open spec fn speed_up(es: Seq<(String, ConfigValue)>) -> u64 {
    match lookup(es, "up"@) {
        Some(ConfigValue::UInt(u)) => u,
        _ => 0,
    }
}

/// The download rate a speed message reports.
pub open spec fn speed_down(es: Seq<(String, ConfigValue)>) -> u64 {
    match lookup(es, "down"@) {
        Some(ConfigValue::UInt(d)) => d,
        _ => 0,
    }
}

/// Decode a speed message from a document, or reject it.
pub fn speed_from_doc(doc: &ConfigValue) -> (r: Option<SpeedMessage>)
    ensures
        (match r {
            Some(m) => {
                &&& *doc is Obj
                &&& speed_parse_ok(obj_entries(*doc))
                &&& m.upload_speed == speed_up(obj_entries(*doc))
                &&& m.download_speed == speed_down(obj_entries(*doc))
            },
            None => !(*doc is Obj && speed_parse_ok(obj_entries(*doc))),
        }),
{
    let es = match doc {
        ConfigValue::Obj(es) => es,
        _ => {
            return None;
        },
    };
    let upload_speed: u64 = match obj_get(es, "up") {
        Some(ConfigValue::UInt(u)) => *u,
        _ => {
            return None;
        },
    };
    let download_speed: u64 = match obj_get(es, "down") {
        Some(ConfigValue::UInt(d)) => *d,
        _ => {
            return None;
        },
    };
    Some(SpeedMessage { upload_speed, download_speed })
}

/// A document is a well-formed memory message: the in-use figure present
/// as a non-negative integer.
pub open spec fn memory_parse_ok(es: Seq<(String, ConfigValue)>) -> bool {
    lookup(es, "inuse"@) matches Some(ConfigValue::UInt(_))
}

/// The resident memory a memory message reports.
pub open spec fn memory_inuse(es: Seq<(String, ConfigValue)>) -> u64 {
    match lookup(es, "inuse"@) {
        Some(ConfigValue::UInt(m)) => m,
        _ => 0,
    }
}

/// Decode a memory message from a document, or reject it.
pub fn memory_from_doc(doc: &ConfigValue) -> (r: Option<MemoryMessage>)
    ensures
        (match r {
            Some(m) => *doc is Obj && memory_parse_ok(obj_entries(*doc)) && m.memory_usage
                == memory_inuse(obj_entries(*doc)),
            None => !(*doc is Obj && memory_parse_ok(obj_entries(*doc))),
        }),
{
    let es = match doc {
        ConfigValue::Obj(es) => es,
        _ => {
            return None;
        },
    };
    match obj_get(es, "inuse") {
        Some(ConfigValue::UInt(m)) => Some(MemoryMessage { memory_usage: *m }),
        _ => None,
    }
}

/// Land a traffic message on the board: its three fields and exactly one
/// change signal; every other field keeps its value.
pub fn apply_traffic(board: &mut StatusBoard, m: &TrafficMessage)
    requires
        old(board).signal_count < u64::MAX,
    ensures
        final(board).status.connection_count == m.connection_count,
        final(board).status.upload_traffic == m.upload_traffic,
        final(board).status.download_traffic == m.download_traffic,
        final(board).status.is_running == old(board).status.is_running,
        final(board).status.running_config == old(board).status.running_config,
        final(board).status.core_version == old(board).status.core_version,
        final(board).status.memory_usage == old(board).status.memory_usage,
        final(board).status.upload_speed == old(board).status.upload_speed,
        final(board).status.download_speed == old(board).status.download_speed,
        final(board).signal_count == old(board).signal_count + 1,
{
    board.status.connection_count = m.connection_count;
    board.status.upload_traffic = m.upload_traffic;
    board.status.download_traffic = m.download_traffic;
    board.notify();
}

/// Land a speed message on the board: both rates and exactly one change
/// signal; every other field keeps its value.
pub fn apply_speed(board: &mut StatusBoard, m: &SpeedMessage)
    requires
        old(board).signal_count < u64::MAX,
    ensures
        final(board).status.upload_speed == m.upload_speed,
        final(board).status.download_speed == m.download_speed,
        final(board).status.is_running == old(board).status.is_running,
        final(board).status.running_config == old(board).status.running_config,
        final(board).status.core_version == old(board).status.core_version,
        final(board).status.memory_usage == old(board).status.memory_usage,
        final(board).status.connection_count == old(board).status.connection_count,
        final(board).status.upload_traffic == old(board).status.upload_traffic,
        final(board).status.download_traffic == old(board).status.download_traffic,
        final(board).signal_count == old(board).signal_count + 1,
{
    board.status.upload_speed = m.upload_speed;
    board.status.download_speed = m.download_speed;
    board.notify();
}

/// Land a memory message on the board: the in-use figure and exactly one
/// change signal; every other field keeps its value.
pub fn apply_memory(board: &mut StatusBoard, m: &MemoryMessage)
    requires
        old(board).signal_count < u64::MAX,
    ensures
        final(board).status.memory_usage == m.memory_usage,
        final(board).status.is_running == old(board).status.is_running,
        final(board).status.running_config == old(board).status.running_config,
        final(board).status.core_version == old(board).status.core_version,
        final(board).status.connection_count == old(board).status.connection_count,
        final(board).status.upload_traffic == old(board).status.upload_traffic,
        final(board).status.download_traffic == old(board).status.download_traffic,
        final(board).status.upload_speed == old(board).status.upload_speed,
        final(board).status.download_speed == old(board).status.download_speed,
        final(board).signal_count == old(board).signal_count + 1,
{
    board.status.memory_usage = m.memory_usage;
    board.notify();
}

} // verus!
