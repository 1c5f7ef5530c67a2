//! Runtime status snapshot shared between the supervisor and its observers.

use vstd::prelude::*;

verus! {

/// Live metrics of the supervised process, plus identification of the run.
pub struct Status {
    pub is_running: bool,
    pub running_config: String,
    pub core_version: String,
    /// Resident memory of the core process, in bytes.
    pub memory_usage: u64,
    pub connection_count: usize,
    /// Cumulative upload, in bytes.
    pub upload_traffic: u64,
    /// Cumulative download, in bytes.
    pub download_traffic: u64,
    /// Instantaneous upload rate, in bytes per second.
    pub upload_speed: u64,
    /// Instantaneous download rate, in bytes per second.
    pub download_speed: u64,
}

impl Status {
    /// All numeric metric fields are zero; the run identification fields are
    /// not part of this predicate.
    pub open spec fn metrics_zero(self) -> bool {
        &&& self.memory_usage == 0
        &&& self.connection_count == 0
        &&& self.upload_traffic == 0
        &&& self.download_traffic == 0
        &&& self.upload_speed == 0
        &&& self.download_speed == 0
    }

    /// Reset every numeric metric field to zero, leaving the run
    /// identification fields (including the running flag) untouched.
    pub fn clean_data(&mut self)
        ensures
            final(self).metrics_zero(),
            final(self).is_running == old(self).is_running,
            final(self).running_config == old(self).running_config,
            final(self).core_version == old(self).core_version,
    {
        self.memory_usage = 0;
        self.connection_count = 0;
        self.upload_traffic = 0;
        self.download_traffic = 0;
        self.upload_speed = 0;
        self.download_speed = 0;
    }
}

/// The shared status record together with its change-notification
/// signal, counted here; every mutation is followed by one wake-up.
pub struct StatusBoard {
    pub status: Status,
    /// How many change signals have been broadcast so far.
    pub signal_count: u64,
}

impl StatusBoard {
    /// A board for a stopped supervisor that has signalled nothing yet.
    pub fn new() -> (r: StatusBoard)
        ensures
            !r.status.is_running,
            r.status.running_config@ == Seq::<char>::empty(),
            r.status.core_version@ == Seq::<char>::empty(),
            r.status.metrics_zero(),
            r.signal_count == 0,
    {
        StatusBoard { status: Status::default(), signal_count: 0 }
    }

    /// Broadcast one change signal.
    pub fn notify(&mut self)
        requires
            old(self).signal_count < u64::MAX,
        ensures
            final(self).status == old(self).status,
            final(self).signal_count == old(self).signal_count + 1,
    {
        self.signal_count = self.signal_count + 1;
    }

    /// Record whether the instance is running, without signalling.
    pub fn set_running(&mut self, running: bool)
        ensures
            final(self).status.is_running == running,
            final(self).status.running_config == old(self).status.running_config,
            final(self).status.core_version == old(self).status.core_version,
            final(self).status.memory_usage == old(self).status.memory_usage,
            final(self).status.connection_count == old(self).status.connection_count,
            final(self).status.upload_traffic == old(self).status.upload_traffic,
            final(self).status.download_traffic == old(self).status.download_traffic,
            final(self).status.upload_speed == old(self).status.upload_speed,
            final(self).status.download_speed == old(self).status.download_speed,
            final(self).signal_count == old(self).signal_count,
    {
        self.status.is_running = running;
    }

    /// Record the tag of the configuration this run was started from and
    /// signal the change.
    pub fn set_running_config(&mut self, tag: String)
        requires
            old(self).signal_count < u64::MAX,
        ensures
            final(self).status.running_config == tag,
            final(self).status.is_running == old(self).status.is_running,
            final(self).status.core_version == old(self).status.core_version,
            final(self).status.memory_usage == old(self).status.memory_usage,
            final(self).status.connection_count == old(self).status.connection_count,
            final(self).status.upload_traffic == old(self).status.upload_traffic,
            final(self).status.download_traffic == old(self).status.download_traffic,
            final(self).status.upload_speed == old(self).status.upload_speed,
            final(self).status.download_speed == old(self).status.download_speed,
            final(self).signal_count == old(self).signal_count + 1,
    {
        self.status.running_config = tag;
        self.notify();
    }

    /// Record the core binary's reported version and signal the change.
    pub fn set_core_version(&mut self, version: String)
        requires
            old(self).signal_count < u64::MAX,
        ensures
            final(self).status.core_version == version,
            final(self).status.is_running == old(self).status.is_running,
            final(self).status.running_config == old(self).status.running_config,
            final(self).status.memory_usage == old(self).status.memory_usage,
            final(self).status.connection_count == old(self).status.connection_count,
            final(self).status.upload_traffic == old(self).status.upload_traffic,
            final(self).status.download_traffic == old(self).status.download_traffic,
            final(self).status.upload_speed == old(self).status.upload_speed,
            final(self).status.download_speed == old(self).status.download_speed,
            final(self).signal_count == old(self).signal_count + 1,
    {
        self.status.core_version = version;
        self.notify();
    }

    /// The copy of the record a status observer reads.
    pub fn snapshot(&self) -> (r: Status)
        ensures
            r == self.status,
    {
        Status {
            is_running: self.status.is_running,
            running_config: self.status.running_config.clone(),
            core_version: self.status.core_version.clone(),
            memory_usage: self.status.memory_usage,
            connection_count: self.status.connection_count,
            upload_traffic: self.status.upload_traffic,
            download_traffic: self.status.download_traffic,
            upload_speed: self.status.upload_speed,
            download_speed: self.status.download_speed,
        }
    }
}

impl Default for Status {
    /// A stopped status with empty identification and zero metrics.
    fn default() -> (r: Status)
        ensures
            !r.is_running,
            r.running_config@ == Seq::<char>::empty(),
            r.core_version@ == Seq::<char>::empty(),
            r.metrics_zero(),
    {
        Status {
            is_running: false,
            running_config: String::new(),
            core_version: String::new(),
            memory_usage: 0,
            connection_count: 0,
            upload_traffic: 0,
            download_traffic: 0,
            upload_speed: 0,
            download_speed: 0,
        }
    }
}

} // verus!
