//! The scheduler loop's state machine.
//!
//! The loop runs on a dedicated worker thread and suspends only inside the
//! signal's interruptible wait.  Each wake yields one [`WakeEvent`], and one
//! [`step`] of the machine decides everything the loop does with it: whether
//! to dispatch a tick and whether to keep running.  A wake that observed a
//! stop request — or a wait that failed because the shared lock is unusable —
//! ends the loop at once, and that turn dispatches nothing: stop wins over a
//! simultaneous fire, and a coordination failure fails safe into shutdown,
//! never open into an unthrottled retry loop.

use vstd::prelude::*;
use crate::signal::{spec_signal_stop, wake_event_of, SignalState};

verus! {

/// What one wake from the interruptible wait reported.
#[derive(Clone, Copy, Debug, PartialEq, Eq, Structural)]
pub enum WakeEvent {
    /// The interval elapsed and no stop was requested.
    Timeout,
    /// A stop request was observed, whether found at the timeout or through
    /// an early wake.
    StopObserved,
    /// The wait itself failed: the signal's lock is unusable (for instance
    /// poisoned by a panic while held).  Never to be read as "not stopped".
    CoordinationFailure,
}

/// The loop's state: `Stopped` is terminal.
#[derive(Clone, Copy, Debug, PartialEq, Eq, Structural)]
pub enum SchedState {
    Running,
    Stopped,
}

/// What one turn of the loop decided: the state to continue in, and whether
/// this turn dispatches a tick.
#[derive(Clone, Copy, Debug, PartialEq, Eq, Structural)]
pub struct StepResult {
    pub next: SchedState,
    pub dispatch: bool,
}

/// The transition relation of the loop, in full:
/// - `Running` + `Timeout`: dispatch one tick, keep running;
/// - `Running` + `StopObserved`: dispatch nothing, stop;
/// - `Running` + `CoordinationFailure`: dispatch nothing, stop (fail-safe);
/// - `Stopped`: dispatch nothing, stay stopped.
pub open spec fn spec_step(s: SchedState, e: WakeEvent) -> StepResult {
    match s {
        SchedState::Stopped => StepResult { next: SchedState::Stopped, dispatch: false },
        SchedState::Running => match e {
            WakeEvent::Timeout => StepResult { next: SchedState::Running, dispatch: true },
            WakeEvent::StopObserved => StepResult {
                next: SchedState::Stopped,
                dispatch: false,
            },
            WakeEvent::CoordinationFailure => StepResult {
                next: SchedState::Stopped,
                dispatch: false,
            },
        },
    }
}

/// One turn of the scheduler loop.  A tick is dispatched exactly when the
/// loop was running and the wake was a plain timeout.
pub fn step(s: SchedState, e: WakeEvent) -> (r: StepResult)
    ensures
        r == spec_step(s, e),
        r.dispatch <==> (s == SchedState::Running && e == WakeEvent::Timeout),
        r.next == SchedState::Running <==> r.dispatch,
{
    match s {
        SchedState::Stopped => StepResult { next: SchedState::Stopped, dispatch: false },
        SchedState::Running => match e {
            WakeEvent::Timeout => StepResult { next: SchedState::Running, dispatch: true },
            WakeEvent::StopObserved => StepResult {
                next: SchedState::Stopped,
                dispatch: false,
            },
            WakeEvent::CoordinationFailure => StepResult {
                next: SchedState::Stopped,
                dispatch: false,
            },
        },
    }
}

/// The state the loop is in after handling a whole sequence of wakes.
pub open spec fn run_state(init: SchedState, evs: Seq<WakeEvent>) -> SchedState
    decreases evs.len(),
{
    if evs.len() == 0 {
        init
    } else {
        run_state(spec_step(init, evs[0]).next, evs.drop_first())
    }
}

/// Whether the turn that handles `evs[i]` dispatches a tick, for a loop that
/// started in `init` and saw the wakes of `evs` in order.
pub open spec fn dispatch_at(init: SchedState, evs: Seq<WakeEvent>, i: int) -> bool
    recommends
        0 <= i < evs.len(),
{
    spec_step(run_state(init, evs.take(i)), evs[i]).dispatch
}

/// `Stopped` is terminal: no sequence of wakes leaves it.
pub proof fn lemma_stopped_is_terminal(evs: Seq<WakeEvent>)
    ensures
        run_state(SchedState::Stopped, evs) == SchedState::Stopped,
    decreases evs.len(),
{
    if evs.len() > 0 {
        lemma_stopped_is_terminal(evs.drop_first());
    }
}

/// Handling a concatenation of wake sequences is handling one after the other.
pub proof fn lemma_run_state_concat(init: SchedState, a: Seq<WakeEvent>, b: Seq<WakeEvent>)
    ensures
        run_state(init, a + b) == run_state(run_state(init, a), b),
    decreases a.len(),
{
    if a.len() == 0 {
        assert(a + b =~= b);
    } else {
        assert((a + b).drop_first() =~= a.drop_first() + b);
        lemma_run_state_concat(spec_step(init, a[0]).next, a.drop_first(), b);
    }
}

/// No ticks after a stop: for every sequence of wakes, once some wake is not
/// a plain timeout — a stop was observed, or the wait failed — no later turn
/// dispatches a tick.
pub proof fn lemma_no_post_stop_ticks(evs: Seq<WakeEvent>, i: int, j: int)
    requires
        0 <= i < j < evs.len(),
        evs[i] != WakeEvent::Timeout,
    ensures
        !dispatch_at(SchedState::Running, evs, j),
{
    let mid = run_state(SchedState::Running, evs.take(i));
    assert(evs.take(i + 1) =~= evs.take(i) + seq![evs[i]]);
    lemma_run_state_concat(SchedState::Running, evs.take(i), seq![evs[i]]);
    let one = seq![evs[i]];
    assert(one.drop_first() =~= Seq::<WakeEvent>::empty());
    assert(run_state(spec_step(mid, one[0]).next, one.drop_first()) == spec_step(mid, evs[i]).next);
    assert(run_state(mid, one) == spec_step(mid, evs[i]).next);
    assert(run_state(SchedState::Running, evs.take(i + 1)) == SchedState::Stopped);
    assert(evs.take(j) =~= evs.take(i + 1) + evs.subrange(i + 1, j));
    lemma_run_state_concat(SchedState::Running, evs.take(i + 1), evs.subrange(i + 1, j));
    lemma_stopped_is_terminal(evs.subrange(i + 1, j));
}

/// While every wake is a plain timeout, the loop keeps running: no dispatch
/// outcome — success, error status or transport failure — has any way to
/// stop it or change its cadence.
pub proof fn lemma_cadence_kept(evs: Seq<WakeEvent>)
    requires
        forall|k: int| 0 <= k < evs.len() ==> evs[k] == WakeEvent::Timeout,
    ensures
        run_state(SchedState::Running, evs) == SchedState::Running,
    decreases evs.len(),
{
    if evs.len() > 0 {
        assert(forall|k: int|
            0 <= k < evs.drop_first().len() ==> evs.drop_first()[k] == evs[k + 1]);
        lemma_cadence_kept(evs.drop_first());
    }
}

/// Exactly when a tick is dispatched: the turn for `evs[j]` dispatches if
/// and only if that wake and every wake before it was a plain timeout.  One
/// direction is "no ticks after a stop"; the other owes a dispatch to every
/// undisturbed interval, so a loop that never dispatched could not satisfy
/// it.
pub proof fn lemma_dispatch_iff_undisturbed(evs: Seq<WakeEvent>, j: int)
    requires
        0 <= j < evs.len(),
    ensures
        dispatch_at(SchedState::Running, evs, j) <==> (forall|k: int|
            0 <= k <= j ==> evs[k] == WakeEvent::Timeout),
{
    if forall|k: int| 0 <= k <= j ==> evs[k] == WakeEvent::Timeout {
        assert(forall|k: int|
            0 <= k < evs.take(j).len() ==> evs.take(j)[k] == WakeEvent::Timeout);
        lemma_cadence_kept(evs.take(j));
    } else {
        let k = choose|k: int| 0 <= k <= j && evs[k] != WakeEvent::Timeout;
        if k < j {
            lemma_no_post_stop_ticks(evs, k, j);
        }
    }
}

/// Bounded shutdown latency: once a stop is requested, the very next wake —
/// whatever the signal held before, and at most one timed wait away — reports
/// `StopObserved`, and that turn stops the loop without dispatching.
pub proof fn lemma_bounded_shutdown(sig: SignalState, st: SchedState)
    ensures
        wake_event_of(spec_signal_stop(sig)) == WakeEvent::StopObserved,
        spec_step(st, wake_event_of(spec_signal_stop(sig))).next == SchedState::Stopped,
        !spec_step(st, wake_event_of(spec_signal_stop(sig))).dispatch,
{
}

} // verus!
