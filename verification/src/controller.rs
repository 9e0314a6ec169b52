//! The controller's shutdown decisions.
//!
//! The controller runs on the initiating thread.  It starts the scheduler
//! loop on a worker thread, then blocks on an external stop trigger — in the
//! reference use, one line read from standard input.  Once that read
//! returns, everything else is decided here: signal stop, join the worker,
//! surface a status.  The one subtlety is the failure path: when the trigger
//! source itself fails, the worker must still be stopped and joined before
//! the failure is surfaced, so that no live worker is leaked.

use vstd::prelude::*;

verus! {

/// How the controller's blocking read of the external stop trigger ended.
#[derive(Clone, Copy, Debug, PartialEq, Eq, Structural)]
pub enum StopTrigger {
    /// The stop event arrived.
    Received,
    /// The trigger source failed before delivering a stop event.
    ReadFailed,
}

/// How the whole run ends at the process boundary.
#[derive(Clone, Copy, Debug, PartialEq, Eq, Structural)]
pub enum RunStatus {
    /// Clean shutdown: mapped to a zero exit code outside.
    Completed,
    /// The stop trigger could not be read: the run fails, mapped to a
    /// non-zero exit code outside.
    StopTriggerReadFailure,
}

/// What the controller does once its blocking read returns, in order:
/// signal stop, join the worker, surface the status.
#[derive(Clone, Copy, Debug, PartialEq, Eq, Structural)]
pub struct ControllerPlan {
    /// Signal stop first.
    pub must_signal_stop: bool,
    /// Then wait for the worker to terminate.  A failed join is reported
    /// but does not change the status: the controller degrades gracefully
    /// rather than hanging.
    pub must_join_worker: bool,
    /// The status to surface afterwards.
    pub status: RunStatus,
}

/// Decide the shutdown path from how the trigger read ended.  Stop is
/// signalled and the worker joined on both paths — a failed trigger read is
/// surfaced as the run's failure, never by leaking a live worker — and the
/// run completes cleanly exactly when the stop event was received.
pub fn controller_plan(t: StopTrigger) -> (p: ControllerPlan)
    ensures
        p.must_signal_stop,
        p.must_join_worker,
        p.status == RunStatus::Completed <==> t == StopTrigger::Received,
        t == StopTrigger::ReadFailed ==> p.status == RunStatus::StopTriggerReadFailure,
{
    match t {
        StopTrigger::Received => ControllerPlan {
            must_signal_stop: true,
            must_join_worker: true,
            status: RunStatus::Completed,
        },
        StopTrigger::ReadFailed => ControllerPlan {
            must_signal_stop: true,
            must_join_worker: true,
            status: RunStatus::StopTriggerReadFailure,
        },
    }
}

} // verus!
