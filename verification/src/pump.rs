//! Decision logic of the I/O pump: the loop that races the child's
//! stdout, stderr, its exit and the cancellation signal. The caller owns
//! the actual streams and the select loop; it hands each observation in
//! as an event and carries the returned actions out in order.

use vstd::prelude::*;

use crate::script::ScriptRunType;
use crate::text::{contains_seq, log_line_spec, trim_end_spec, LogSource};

verus! {

/// The line the core process prints once it is fully initialized.
pub open spec fn readiness_marker() -> Seq<char> {
    "sing-box started"@
}

/// A console line announcing readiness.
pub open spec fn is_ready_line(line: Seq<char>) -> bool {
    contains_seq(line, readiness_marker())
}

/// Decide whether a console line announces readiness.
pub fn line_is_ready(line: &str) -> (r: bool)
    ensures
        r == is_ready_line(line@),
{
    crate::text::str_contains(line, "sing-box started")
}

/// One observation the select loop hands to the pump.
pub enum PumpEvent {
    /// A line read from the child's stdout; empty when that stream ended.
    StdoutLine(String),
    /// A line read from the child's stderr; empty when that stream ended.
    StderrLine(String),
    /// The child process exited on its own.
    Exited,
    /// The instance's cancellation signal fired.
    Cancelled,
}

/// One step the caller performs on the pump's behalf, in order.
pub enum PumpAction {
    /// Append this line to the log queue.
    PushLog(String),
    /// Record whether the instance is running on the status board.
    SetRunning(bool),
    /// Wake the status observers.
    NotifyStatus,
    /// Run the script of this lifecycle point to completion.
    RunScript(ScriptRunType),
    /// Wake whoever waits for readiness; the metrics poller starts here.
    SignalReady,
    /// Terminate the child process under the graceful-stop policy.
    TerminateProcess,
    /// Fire the instance's cancellation signal.
    CancelToken,
}

/// What the pump does on entering its loop: record the instance as
/// running, wake observers, and log the start notice under `ts`.
pub fn pump_enter_plan(ts: &str) -> (r: Vec<PumpAction>)
    ensures
        r@.len() == 3,
        r@[0] == PumpAction::SetRunning(true),
        r@[1] == PumpAction::NotifyStatus,
        r@[2] matches PumpAction::PushLog(l) && l@ == log_line_spec(
            ts@,
            LogSource::Internal,
            "service is started"@,
        ),
{
    proof {
        reveal_strlit("service is started");
    }
    let line = crate::text::format_log_line(ts, LogSource::Internal, "service is started");
    let mut r: Vec<PumpAction> = Vec::new();
    r.push(PumpAction::SetRunning(true));
    r.push(PumpAction::NotifyStatus);
    r.push(PumpAction::PushLog(line));
    r
}

/// What one observation makes the pump do, and whether the loop ends.
///
/// A non-empty console line is timestamped with `ts` and logged under its
/// stream's tag; a line carrying the readiness marker additionally runs
/// the after-start script and signals readiness, every time it appears.
/// Cancellation runs the before-close script and terminates the child;
/// the child's own exit just ends the loop.
pub fn pump_step_plan(event: &PumpEvent, ts: &str) -> (r: (Vec<PumpAction>, bool))
    ensures
        event matches PumpEvent::StdoutLine(line) ==> pump_line_plan(
            r.0@,
            line@,
            ts@,
            LogSource::Stdout,
        ) && r.1 == false,
        event matches PumpEvent::StderrLine(line) ==> pump_line_plan(
            r.0@,
            line@,
            ts@,
            LogSource::Stderr,
        ) && r.1 == false,
        event is Exited ==> r.0@ == Seq::<PumpAction>::empty() && r.1 == true,
        event is Cancelled ==> r.0@.len() == 2 && r.0@[0] == PumpAction::RunScript(
            ScriptRunType::BeforeClose,
        ) && r.0@[1] == PumpAction::TerminateProcess && r.1 == true,
{
    match event {
        PumpEvent::StdoutLine(line) => (line_plan(line, ts, LogSource::Stdout), false),
        PumpEvent::StderrLine(line) => (line_plan(line, ts, LogSource::Stderr), false),
        PumpEvent::Exited => (Vec::new(), true),
        PumpEvent::Cancelled => {
            let mut acts: Vec<PumpAction> = Vec::new();
            acts.push(PumpAction::RunScript(ScriptRunType::BeforeClose));
            acts.push(PumpAction::TerminateProcess);
            (acts, true)
        },
    }
}

/// The actions a console line causes: nothing for an empty read; a log
/// push for an ordinary line; log push, after-start script and readiness
/// signal, in that order, for a line carrying the readiness marker.
pub open spec fn pump_line_plan(
    acts: Seq<PumpAction>,
    line: Seq<char>,
    ts: Seq<char>,
    source: LogSource,
) -> bool {
    if line.len() == 0 {
        acts == Seq::<PumpAction>::empty()
    } else {
        &&& (acts[0] matches PumpAction::PushLog(l) && l@ == log_line_spec(
            ts,
            source,
            trim_end_spec(line),
        ))
        &&& if is_ready_line(line) {
            acts.len() == 3 && acts[1] == PumpAction::RunScript(ScriptRunType::AfterStart)
                && acts[2] == PumpAction::SignalReady
        } else {
            acts.len() == 1
        }
    }
}

fn line_plan(line: &String, ts: &str, source: LogSource) -> (r: Vec<PumpAction>)
    ensures
        pump_line_plan(r@, line@, ts@, source),
{
    let mut acts: Vec<PumpAction> = Vec::new();
    if line.as_str().unicode_len() > 0 {
        let ready = line_is_ready(line.as_str());
        let formatted = crate::text::format_log_line(ts, source, line.as_str());
        acts.push(PumpAction::PushLog(formatted));
        if ready {
            acts.push(PumpAction::RunScript(ScriptRunType::AfterStart));
            acts.push(PumpAction::SignalReady);
        }
    }
    acts
}

/// What the pump does after its loop ends, whatever ended it: run the
/// after-close script, log the close notice under `ts`, fire the
/// cancellation signal so symmetric waiters unblock, and record the
/// instance as stopped.
pub fn pump_exit_plan(ts: &str) -> (r: Vec<PumpAction>)
    ensures
        r@.len() == 5,
        r@[0] == PumpAction::RunScript(ScriptRunType::AfterClose),
        r@[1] matches PumpAction::PushLog(l) && l@ == log_line_spec(
            ts@,
            LogSource::Internal,
            "service is closed"@,
        ),
        r@[2] == PumpAction::CancelToken,
        r@[3] == PumpAction::SetRunning(false),
        r@[4] == PumpAction::NotifyStatus,
{
    proof {
        reveal_strlit("service is closed");
    }
    let line = crate::text::format_log_line(ts, LogSource::Internal, "service is closed");
    let mut r: Vec<PumpAction> = Vec::new();
    r.push(PumpAction::RunScript(ScriptRunType::AfterClose));
    r.push(PumpAction::PushLog(line));
    r.push(PumpAction::CancelToken);
    r.push(PumpAction::SetRunning(false));
    r.push(PumpAction::NotifyStatus);
    r
}

} // verus!
