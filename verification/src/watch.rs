//! The background change watcher's decisions.
//!
//! A worker loops on an external "wait for change" call with a bounded
//! timeout. The call's outcome alone decides what happens next; the
//! decision is taken here so the worker stays a bare loop: run the call,
//! apply the step, repeat or stop.

use vstd::prelude::*;

verus! {

/// How one round of the external wait call ended.
#[derive(Debug, Clone, Copy, PartialEq, Eq, Structural)]
pub enum WatchOutcome {
    /// The call ran and exited with this code.
    Exited(i32),
    /// The call ran but ended without an exit code.
    Interrupted,
    /// The call could not be started at all.
    LaunchFailed,
}

/// What the worker does next.
#[derive(Debug, Clone, Copy, PartialEq, Eq, Structural)]
pub enum WatchStep {
    /// New mail arrived: notify the main loop, then wait again.
    NotifyChanged,
    /// The bounded wait timed out: wait again at once, telling nobody.
    Restart,
    /// The connection dropped: notify once, back off, then retry.
    NotifyErrorAndBackoff,
    /// The external command is unavailable: notify once and stop for
    /// good.
    NotifyErrorAndStop,
}

/// The watcher's step function: exit code zero reports a change, exit
/// code two is the silent timeout, any other exit is a transient
/// connection failure, and a call that cannot start stops the watcher.
pub open spec fn spec_watch_step(outcome: WatchOutcome) -> WatchStep {
    match outcome {
        WatchOutcome::Exited(0) => WatchStep::NotifyChanged,
        WatchOutcome::Exited(2) => WatchStep::Restart,
        WatchOutcome::Exited(_) => WatchStep::NotifyErrorAndBackoff,
        WatchOutcome::Interrupted => WatchStep::NotifyErrorAndBackoff,
        WatchOutcome::LaunchFailed => WatchStep::NotifyErrorAndStop,
    }
}

/// Decide the watcher's next move from one wait-call outcome.
pub fn watch_step(outcome: WatchOutcome) -> (r: WatchStep)
    ensures
        r == spec_watch_step(outcome),
{
    match outcome {
        WatchOutcome::Exited(0) => WatchStep::NotifyChanged,
        WatchOutcome::Exited(2) => WatchStep::Restart,
        WatchOutcome::Exited(_) => WatchStep::NotifyErrorAndBackoff,
        WatchOutcome::Interrupted => WatchStep::NotifyErrorAndBackoff,
        WatchOutcome::LaunchFailed => WatchStep::NotifyErrorAndStop,
    }
}

} // verus!
