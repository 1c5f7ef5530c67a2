//! The graceful-termination policy: send the platform's graceful signal,
//! give the process a fixed grace period, then force-kill. Delivering
//! signals and waiting are the caller's work; the decisions live here.

use vstd::prelude::*;

verus! {

/// How long a process may ignore the graceful signal before it is
/// force-killed, in seconds.
pub const GRACE_PERIOD_SECS: u64 = 5;

/// How delivering the graceful signal went.
pub enum SignalOutcome {
    /// The process id could not be read; nothing more can be addressed.
    NoPid,
    /// Delivery failed.
    SendFailed,
    /// The signal was delivered.
    Sent,
}

/// What to do after trying to deliver the graceful signal.
#[derive(Clone, Copy, PartialEq, Eq, Structural, Debug)]
pub enum GracefulStep {
    /// Stop here without killing: there is no process to address.
    GiveUp,
    /// Force-kill immediately.
    ForceKill,
    /// Race the grace period against the process's own exit.
    AwaitExit,
}

/// Decide the follow-up to a graceful-signal attempt: an undeliverable
/// signal falls back to an immediate kill, a delivered one starts the
/// grace period, and a missing process id ends the attempt.
pub fn graceful_stop_decision(outcome: &SignalOutcome) -> (r: GracefulStep)
    ensures
        outcome is NoPid ==> r == GracefulStep::GiveUp,
        outcome is SendFailed ==> r == GracefulStep::ForceKill,
        outcome is Sent ==> r == GracefulStep::AwaitExit,
{
    match outcome {
        SignalOutcome::NoPid => GracefulStep::GiveUp,
        SignalOutcome::SendFailed => GracefulStep::ForceKill,
        SignalOutcome::Sent => GracefulStep::AwaitExit,
    }
}

/// What ended the grace period first.
pub enum GraceWaitOutcome {
    /// The grace period elapsed with the process still alive.
    TimerFired,
    /// The process exited on its own within the grace period.
    ProcessExited,
}

/// Decide whether the process must now be force-killed: only when it
/// outlived the grace period.
pub fn grace_wait_decision(outcome: &GraceWaitOutcome) -> (r: bool)
    ensures
        r == (outcome is TimerFired),
{
    match outcome {
        GraceWaitOutcome::TimerFired => true,
        GraceWaitOutcome::ProcessExited => false,
    }
}

} // verus!
