//! The shutdown signal shared between the controller and the scheduler loop.
//!
//! At run time the flag lives under a mutex paired with a condition variable,
//! so that the worker's timed wait can be woken early; the lock and the wait
//! belong to the surrounding binary.  This module holds the flag's protocol:
//! it starts `false`, moves to `true` at most once, and is never reset.  What
//! a wake from the interruptible wait reports is a pure function of the flag,
//! re-read under the lock after waking, so a wake-up — timed out, notified,
//! or spurious — can never be mistaken for the wrong verdict.

use vstd::prelude::*;
use crate::scheduler::WakeEvent;

verus! {

/// The state of the shutdown signal: just the stop flag.
#[derive(Clone, Copy, Debug, PartialEq, Eq, Structural)]
pub struct SignalState {
    pub stopped: bool,
}

/// What requesting a stop does to the signal, whatever it held before.
pub open spec fn spec_signal_stop(s: SignalState) -> SignalState {
    SignalState { stopped: true }
}

/// What a wake from the interruptible wait observes: the stop flag, re-read
/// under the lock after waking.
pub open spec fn wake_event_of(s: SignalState) -> WakeEvent {
    if s.stopped {
        WakeEvent::StopObserved
    } else {
        WakeEvent::Timeout
    }
}

impl SignalState {
    /// A fresh signal: no stop requested yet.
    pub fn new() -> (s: Self)
        ensures
            !s.stopped,
    {
        SignalState { stopped: false }
    }

    /// Request a stop.  Sets the flag; never clears it.  Calling it a second
    /// time changes nothing, so a repeated request is harmless.
    pub fn signal_stop(&mut self)
        ensures
            *final(self) == spec_signal_stop(*old(self)),
            final(self).stopped,
    {
        self.stopped = true;
    }

    /// The verdict a waiter reports after waking: `StopObserved` exactly when
    /// a stop has been requested, `Timeout` otherwise.
    pub fn wake_event(&self) -> (e: WakeEvent)
        ensures
            e == wake_event_of(*self),
    {
        if self.stopped {
            WakeEvent::StopObserved
        } else {
            WakeEvent::Timeout
        }
    }
}

/// Idempotent stop: requesting a stop twice leaves the signal exactly as one
/// request does, so everything downstream — the wake verdicts and hence the
/// scheduler loop — behaves the same either way.
pub proof fn lemma_signal_stop_idempotent(s: SignalState)
    ensures
        spec_signal_stop(spec_signal_stop(s)) == spec_signal_stop(s),
{
}

} // verus!
