//! Verified core of a process-supervision daemon.
//!
//! The library models the lifecycle of a single supervised network-proxy
//! process: a supervisor that serializes start/stop/restart requests, a
//! bounded log queue with backlog replay, lifecycle hook scripts, a
//! configuration normalizer, and the decision logic of the I/O pump,
//! graceful termination, metrics intake and binary upload. All I/O and
//! task scheduling live outside the library; callers feed events in and
//! carry actions out.

pub mod config_doc;
pub mod error;
pub mod log_queue;
pub mod logger;
pub mod metrics;
pub mod normalize;
pub mod pump;
pub mod script;
pub mod status;
pub mod supervisor;
pub mod term;
pub mod text;
pub mod upload;
pub mod version;
