//! What reads from the persistence collaborator come to, and the failure
//! categories a caller of start/stop/restart can receive.

use vstd::prelude::*;

verus! {

/// What reading one record from the persistence collaborator came to.
pub enum FetchResult<T> {
    /// The record exists and was read.
    Found(T),
    /// No such record is stored.
    Missing,
    /// The read itself failed, with the collaborator's message.
    Failed(String),
}

/// Why a start or restart request failed.
#[derive(Debug)]
pub enum ServiceError {
    /// No configuration is marked active in storage.
    ConfigNotSet,
    /// Reading the active configuration from storage failed.
    GetConfigFailed(String),
    /// No core binary path is stored.
    CorePathNotSet,
    /// Reading the core binary path from storage failed.
    GetCorePathFailed(String),
    /// Building or spawning the new instance failed.
    StartServiceFailed(String),
}

/// The message text of each failure category.
pub open spec fn error_message_spec(e: ServiceError) -> Seq<char> {
    match e {
        ServiceError::ConfigNotSet => "config is not set"@,
        ServiceError::GetConfigFailed(s) => "get config failed: "@ + s@,
        ServiceError::CorePathNotSet => "core path is not set"@,
        ServiceError::GetCorePathFailed(s) => "get core path failed: "@ + s@,
        ServiceError::StartServiceFailed(s) => "start service failed: "@ + s@,
    }
}

impl ServiceError {
    /// Render the message a caller reads.
    pub fn message(&self) -> (r: String)
        ensures
            r@ == error_message_spec(*self),
    {
        match self {
            ServiceError::ConfigNotSet => String::from_str("config is not set"),
            ServiceError::GetConfigFailed(s) => {
                let mut r = String::from_str("get config failed: ");
                r.append(s.as_str());
                r
            },
            ServiceError::CorePathNotSet => String::from_str("core path is not set"),
            ServiceError::GetCorePathFailed(s) => {
                let mut r = String::from_str("get core path failed: ");
                r.append(s.as_str());
                r
            },
            ServiceError::StartServiceFailed(s) => {
                let mut r = String::from_str("start service failed: ");
                r.append(s.as_str());
                r
            },
        }
    }
}

} // verus!
