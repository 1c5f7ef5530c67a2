//! The long-lived handle callers talk to: it serializes start, stop and
//! restart against at most one live process instance. The caller owns
//! the mutual exclusion, the persistence reads, the child process and
//! the background tasks; the state transitions and decisions live here.
//!
//! A teardown here models a completed `cancel-and-wait`: the caller has
//! fired the cancellation signal and awaited the I/O pump's
//! acknowledgment before applying it.

use vstd::prelude::*;

use crate::config_doc::{keys_unique, ConfigValue};
use crate::error::{FetchResult, ServiceError};
use crate::log_queue::LogQueue;
use crate::normalize::{
    normalize_config, normalize_post, normalized_listen, normalized_secret, obj_entries,
    sections_unique,
};
use crate::script::{resolved_scripts, script_load_error, Script, ScriptHandler};
use crate::status::StatusBoard;

verus! {

/// How many log lines the backlog keeps.
pub const LOG_QUEUE_CAPACITY: usize = 16;

/// A stored configuration: its identifier, its human tag and the
/// document itself.
pub struct ConfigRecord {
    pub id: String,
    pub tag: String,
    pub config: ConfigValue,
}

/// One run of the core process, from spawn to termination: its amended
/// configuration, the resolved control-plane endpoint, and the scripts
/// loaded for its lifetime.
pub struct InstanceState {
    /// The normalized document the child is fed.
    pub config: ConfigValue,
    pub config_tag: String,
    /// The control-plane listen address, as written into the document.
    pub listen: String,
    /// The control-plane secret, when one is set.
    pub secret: Option<String>,
    pub scripts: ScriptHandler,
    pub core_path: String,
}

/// What a freshly built instance holds, relative to its inputs: the
/// tag, path and scripts as given, and the configuration normalized,
/// with the control-plane endpoint it resolved.
pub open spec fn built_instance_ok(
    core_path: String,
    record: ConfigRecord,
    scripts: ScriptHandler,
    fresh_secret: String,
    inst: InstanceState,
) -> bool {
    &&& inst.config_tag == record.tag
    &&& inst.core_path == core_path
    &&& inst.scripts == scripts
    &&& inst.config is Obj
    &&& normalize_post(obj_entries(record.config), fresh_secret, obj_entries(inst.config))
    &&& inst.listen@ == normalized_listen(obj_entries(record.config))
    &&& (match inst.secret {
        Some(s) => normalized_secret(obj_entries(record.config), fresh_secret@) == Some(s@),
        None => normalized_secret(obj_entries(record.config), fresh_secret@) is None,
    })
}

/// The board after a configuration tag was recorded on `pre`, with its
/// one change signal; every other field keeps its value.
pub open spec fn tag_recorded_post(pre: StatusBoard, post: StatusBoard, tag: String) -> bool {
    &&& post.status.running_config == tag
    &&& post.status.is_running == pre.status.is_running
    &&& post.status.core_version == pre.status.core_version
    &&& post.status.memory_usage == pre.status.memory_usage
    &&& post.status.connection_count == pre.status.connection_count
    &&& post.status.upload_traffic == pre.status.upload_traffic
    &&& post.status.download_traffic == pre.status.download_traffic
    &&& post.status.upload_speed == pre.status.upload_speed
    &&& post.status.download_speed == pre.status.download_speed
    &&& post.signal_count == pre.signal_count + 1
}

impl InstanceState {
    /// Build the state of a new instance, failing fast: record the
    /// configuration's tag on the board — with its change signal —
    /// then resolve the four lifecycle-script reads, aborting with the
    /// failing point's error before anything more, and normalize the
    /// document, resolving the control-plane endpoint. `fresh_secret`
    /// is the random token used if the document gets a new
    /// control-plane section. The tag stays recorded even when a
    /// script read aborts the construction.
    pub fn new(
        core_path: String,
        record: ConfigRecord,
        before_start: FetchResult<Script>,
        after_start: FetchResult<Script>,
        before_close: FetchResult<Script>,
        after_close: FetchResult<Script>,
        fresh_secret: String,
        board: &mut StatusBoard,
    ) -> (r: Result<InstanceState, String>)
        requires
            record.config is Obj,
            keys_unique(obj_entries(record.config)),
            sections_unique(obj_entries(record.config)),
            old(board).signal_count < u64::MAX,
        ensures
            tag_recorded_post(*old(board), *final(board), record.tag),
            (match r {
                Ok(inst) => script_load_error(before_start, after_start, before_close, after_close)
                    is None && built_instance_ok(
                    core_path,
                    record,
                    resolved_scripts(before_start, after_start, before_close, after_close),
                    fresh_secret,
                    inst,
                ),
                Err(m) => script_load_error(
                    before_start,
                    after_start,
                    before_close,
                    after_close,
                ) matches Some(t) && m@ == t,
            }),
    {
        board.set_running_config(record.tag.clone());
        let scripts = match ScriptHandler::new(before_start, after_start, before_close, after_close) {
            Ok(h) => h,
            Err(m) => {
                return Err(m);
            },
        };
        let normalized = normalize_config(record.config, fresh_secret);
        Ok(
            InstanceState {
                config: normalized.0,
                config_tag: record.tag,
                listen: normalized.1,
                secret: normalized.2,
                scripts,
                core_path,
            },
        )
    }
}

/// The supervisor's state: the one instance slot, the status board and
/// the log backlog.
pub struct Supervisor {
    /// The one instance slot. It is owned exclusively by the supervisor's
    /// serialization: only `stop` and `install_instance` may change it.
    pub instance: Option<InstanceState>,
    pub board: StatusBoard,
    pub log_queue: LogQueue,
}

/// What a completed teardown did: with no instance, nothing at all; with
/// one, the slot is emptied, the instance is recorded as stopped, every
/// metric is reset to zero with one final change signal, and the run
/// identification and the log backlog are kept.
pub open spec fn teardown_post(pre: Supervisor, post: Supervisor) -> bool {
    if pre.instance is None {
        post == pre
    } else {
        &&& post.instance is None
        &&& !post.board.status.is_running
        &&& post.board.status.metrics_zero()
        &&& post.board.status.running_config == pre.board.status.running_config
        &&& post.board.status.core_version == pre.board.status.core_version
        &&& post.board.signal_count == pre.board.signal_count + 1
        &&& post.log_queue == pre.log_queue
    }
}

/// What reading the start inputs decides: the stored core path and the
/// active configuration, or the first failure in that order.
pub open spec fn prepare_spec(
    core_path: FetchResult<String>,
    config: FetchResult<ConfigRecord>,
) -> Result<(String, ConfigRecord), ServiceError> {
    match core_path {
        FetchResult::Failed(e) => Err(ServiceError::GetCorePathFailed(e)),
        FetchResult::Missing => Err(ServiceError::CorePathNotSet),
        FetchResult::Found(p) => match config {
            FetchResult::Failed(e) => Err(ServiceError::GetConfigFailed(e)),
            FetchResult::Missing => Err(ServiceError::ConfigNotSet),
            FetchResult::Found(c) => Ok((p, c)),
        },
    }
}

impl Supervisor {
    /// The backlog bound is in place.
    pub open spec fn wf(self) -> bool {
        self.log_queue.wf() && self.log_queue.cap() == LOG_QUEUE_CAPACITY
    }

    /// A supervisor with nothing running, a fresh board and an empty
    /// backlog.
    pub fn new() -> (r: Supervisor)
        ensures
            r.wf(),
            r.instance is None,
            !r.board.status.is_running,
            r.board.status.metrics_zero(),
            r.board.status.running_config@ == Seq::<char>::empty(),
            r.board.status.core_version@ == Seq::<char>::empty(),
            r.board.signal_count == 0,
            r.log_queue@ == Seq::<String>::empty(),
    {
        Supervisor {
            instance: None,
            board: StatusBoard::new(),
            log_queue: LogQueue::new(LOG_QUEUE_CAPACITY),
        }
    }

    /// Whether an instance is installed.
    pub fn has_instance(&self) -> (r: bool)
        ensures
            r == (self.instance is Some),
    {
        self.instance.is_some()
    }

    /// Apply a completed teardown: a stop with nothing running is a
    /// no-op success, one with a running instance empties the slot and
    /// resets the board's metrics.
    pub fn stop(&mut self)
        requires
            old(self).wf(),
            old(self).board.signal_count < u64::MAX,
        ensures
            final(self).wf(),
            teardown_post(*old(self), *final(self)),
    {
        if self.instance.is_some() {
            self.instance = None;
            self.board.set_running(false);
            self.board.status.clean_data();
            self.board.notify();
        }
    }

    /// Resolve the fetched start inputs, or report which is missing or
    /// unreadable: missing core path and missing active configuration
    /// are distinct, reported conditions, never silently defaulted.
    pub fn prepare_start(
        core_path: FetchResult<String>,
        config: FetchResult<ConfigRecord>,
    ) -> (r: Result<(String, ConfigRecord), ServiceError>)
        ensures
            r == prepare_spec(core_path, config),
    {
        match core_path {
            FetchResult::Failed(e) => Err(ServiceError::GetCorePathFailed(e)),
            FetchResult::Missing => Err(ServiceError::CorePathNotSet),
            FetchResult::Found(p) => match config {
                FetchResult::Failed(e) => Err(ServiceError::GetConfigFailed(e)),
                FetchResult::Missing => Err(ServiceError::ConfigNotSet),
                FetchResult::Found(c) => Ok((p, c)),
            },
        }
    }

    /// One restart request, up to the point where the caller spawns the
    /// child: tear down any prior instance completely, resolve the
    /// fetched inputs, and build the next instance — recording the tag,
    /// resolving the four lifecycle-script reads and normalizing the
    /// document, failing fast in that order. On any failure no instance
    /// is left installed and the error is returned: a restart finding
    /// no active configuration reports the configuration-absent error,
    /// and a failed script read surfaces as a construction failure
    /// naming its lifecycle point. The built instance is handed back
    /// for the caller to spawn with; only `install_instance` installs
    /// it.
    pub fn restart_prepare(
        &mut self,
        core_path: FetchResult<String>,
        config: FetchResult<ConfigRecord>,
        before_start: FetchResult<Script>,
        after_start: FetchResult<Script>,
        before_close: FetchResult<Script>,
        after_close: FetchResult<Script>,
        fresh_secret: String,
    ) -> (r: Result<InstanceState, ServiceError>)
        requires
            old(self).wf(),
            old(self).board.signal_count + 2 <= u64::MAX,
            (config matches FetchResult::Found(c) ==> c.config is Obj && keys_unique(
                obj_entries(c.config),
            ) && sections_unique(obj_entries(c.config))),
        ensures
            final(self).wf(),
            final(self).instance is None,
            (match r {
                Ok(inst) => exists|mid: Supervisor|
                    {
                        &&& #[trigger] teardown_post(*old(self), mid)
                        &&& (prepare_spec(core_path, config) matches Ok(pc)
                            && script_load_error(
                            before_start,
                            after_start,
                            before_close,
                            after_close,
                        ) is None && built_instance_ok(
                            pc.0,
                            pc.1,
                            resolved_scripts(before_start, after_start, before_close, after_close),
                            fresh_secret,
                            inst,
                        ) && tag_recorded_post(mid.board, final(self).board, pc.1.tag))
                        &&& final(self).log_queue == mid.log_queue
                    },
                Err(e) => exists|mid: Supervisor|
                    {
                        &&& #[trigger] teardown_post(*old(self), mid)
                        &&& ((prepare_spec(core_path, config) == Err::<
                            (String, ConfigRecord),
                            ServiceError,
                        >(e) && *final(self) == mid) || (prepare_spec(core_path, config) matches Ok(
                            pc,
                        ) && (e matches ServiceError::StartServiceFailed(m) && script_load_error(
                            before_start,
                            after_start,
                            before_close,
                            after_close,
                        ) matches Some(t) && m@ == t) && tag_recorded_post(
                            mid.board,
                            final(self).board,
                            pc.1.tag,
                        ) && final(self).log_queue == mid.log_queue))
                    },
            }),
            core_path matches FetchResult::Found(_) && config is Missing ==> r
                == Err::<InstanceState, ServiceError>(ServiceError::ConfigNotSet),
    {
        self.stop();
        let ghost mid = *self;
        match Self::prepare_start(core_path, config) {
            Ok(pc) => {
                let built = InstanceState::new(
                    pc.0,
                    pc.1,
                    before_start,
                    after_start,
                    before_close,
                    after_close,
                    fresh_secret,
                    &mut self.board,
                );
                match built {
                    Ok(inst) => Ok(inst),
                    Err(m) => Err(ServiceError::StartServiceFailed(m)),
                }
            },
            Err(e) => Err(e),
        }
    }

    /// Install a freshly built instance into the empty slot. A prior
    /// teardown must have completed: no two instances are ever live at
    /// once.
    pub fn install_instance(&mut self, inst: InstanceState)
        requires
            old(self).wf(),
            old(self).instance is None,
        ensures
            final(self).wf(),
            final(self).instance == Some(inst),
            final(self).board == old(self).board,
            final(self).log_queue == old(self).log_queue,
    {
        self.instance = Some(inst);
    }

    /// The document the running instance was started from, if one runs.
    pub fn current_config(&self) -> (r: Option<&ConfigValue>)
        ensures
            (match r {
                Some(c) => self.instance matches Some(i) && *c == i.config,
                None => self.instance is None,
            }),
    {
        match &self.instance {
            Some(i) => Some(&i.config),
            None => None,
        }
    }

    /// The backlog snapshot a new log subscriber replays first.
    pub fn log_subscribe(&self) -> (r: Vec<String>)
        ensures
            r@ == self.log_queue@,
    {
        self.log_queue.subscribe()
    }

    /// The copy of the status record an observer reads.
    pub fn status_snapshot(&self) -> (r: crate::status::Status)
        ensures
            r == self.board.status,
    {
        self.board.snapshot()
    }
}

/// Whether the boot sequence starts the service by itself: exactly when
/// the persisted flag was read and set. A failed read does not stop the
/// daemon's boot.
pub fn auto_start_decision(fetch: &FetchResult<bool>) -> (r: bool)
    ensures
        r == (fetch matches FetchResult::Found(true)),
{
    match fetch {
        FetchResult::Found(b) => *b,
        _ => false,
    }
}

/// At any instant, at most one process instance exists per supervisor:
/// the slot that may create or destroy one holds at most one by its
/// shape.
pub open spec fn instance_count(s: Supervisor) -> nat {
    if s.instance is Some {
        1
    } else {
        0
    }
}

/// Invariant: a supervisor never owns more than one live instance.
pub proof fn lemma_at_most_one_instance(s: Supervisor)
    ensures
        instance_count(s) <= 1,
{
}

/// Invariant: a teardown of a live instance fully completes before any
/// next instance can be installed. The state every install starts from
/// — the slot empty — shows the completed teardown: the running flag is
/// down and every metric is reset to zero; `install_instance` demands
/// exactly that empty slot.
pub proof fn lemma_teardown_completes_before_install(pre: Supervisor, post: Supervisor)
    requires
        teardown_post(pre, post),
        pre.instance is Some,
    ensures
        post.instance is None,
        !post.board.status.is_running,
        post.board.status.metrics_zero(),
{
}

/// Boundary: a restart that finds no active configuration reports the
/// configuration-absent error, and installs no instance — after its
/// teardown the slot is empty, and resolving the inputs fails before
/// any instance is built.
pub proof fn lemma_restart_without_config(pre: Supervisor, post: Supervisor, core_path: String)
    requires
        teardown_post(pre, post),
    ensures
        pre.instance is None ==> post.instance is None,
        pre.instance is Some ==> post.instance is None,
        prepare_spec(FetchResult::Found(core_path), FetchResult::Missing) == Err::<
            (String, ConfigRecord),
            ServiceError,
        >(ServiceError::ConfigNotSet),
{
}

/// The steps of one instance construction, in the order they run.
#[derive(Clone, Copy, PartialEq, Eq, Structural, Debug)]
pub enum StartStep {
    /// Record the configuration's tag on the status board.
    RecordConfigTag,
    /// Load the four lifecycle scripts from storage.
    LoadScripts,
    /// Normalize the configuration document.
    NormalizeConfig,
    /// Resolve the control-plane listen address to an endpoint.
    ResolveListen,
    /// Ensure the core binary is executable.
    EnsureExecutable,
    /// Run the binary once with a version query.
    QueryVersion,
    /// Run the before-start script to completion.
    RunBeforeStartScript,
    /// Spawn the core binary in run mode.
    SpawnProcess,
    /// Stream the normalized configuration to the child's input.
    FeedConfig,
    /// Launch the I/O pump task.
    LaunchIoPump,
    /// Launch the metrics poller task, gated on readiness.
    LaunchMetricsPoller,
}

/// The construction order of one instance.
pub open spec fn start_plan_spec() -> Seq<StartStep> {
    seq![
        StartStep::RecordConfigTag,
        StartStep::LoadScripts,
        StartStep::NormalizeConfig,
        StartStep::ResolveListen,
        StartStep::EnsureExecutable,
        StartStep::QueryVersion,
        StartStep::RunBeforeStartScript,
        StartStep::SpawnProcess,
        StartStep::FeedConfig,
        StartStep::LaunchIoPump,
        StartStep::LaunchMetricsPoller,
    ]
}

/// The ordered steps the caller performs to construct an instance.
pub fn start_plan() -> (r: Vec<StartStep>)
    ensures
        r@ == start_plan_spec(),
{
    let mut r: Vec<StartStep> = Vec::new();
    r.push(StartStep::RecordConfigTag);
    r.push(StartStep::LoadScripts);
    r.push(StartStep::NormalizeConfig);
    r.push(StartStep::ResolveListen);
    r.push(StartStep::EnsureExecutable);
    r.push(StartStep::QueryVersion);
    r.push(StartStep::RunBeforeStartScript);
    r.push(StartStep::SpawnProcess);
    r.push(StartStep::FeedConfig);
    r.push(StartStep::LaunchIoPump);
    r.push(StartStep::LaunchMetricsPoller);
    proof {
        assert(r@ =~= start_plan_spec());
    }
    r
}

/// Hook ordering: the before-start script completes strictly before the
/// child receives its configuration — wherever the two steps stand in
/// the plan, the script comes first.
pub proof fn lemma_before_start_precedes_feed()
    ensures
        forall|i: int, j: int|
            0 <= i < start_plan_spec().len() && 0 <= j < start_plan_spec().len()
                && start_plan_spec()[i] == StartStep::RunBeforeStartScript
                && start_plan_spec()[j] == StartStep::FeedConfig ==> i < j,
{
    assert forall|i: int, j: int|
        0 <= i < start_plan_spec().len() && 0 <= j < start_plan_spec().len()
            && start_plan_spec()[i] == StartStep::RunBeforeStartScript && start_plan_spec()[j]
            == StartStep::FeedConfig implies i < j by {
        assert(start_plan_spec()[i] == StartStep::RunBeforeStartScript && i
            < start_plan_spec().len() ==> i == 6);
        assert(start_plan_spec()[j] == StartStep::FeedConfig && j < start_plan_spec().len()
            ==> j == 8);
    }
}

} // verus!
