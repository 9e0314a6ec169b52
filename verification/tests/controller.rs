use cmd_repeater::controller::{controller_plan, RunStatus, StopTrigger};

#[test]
fn stop_event_completes_cleanly() {
    let plan = controller_plan(StopTrigger::Received);
    assert!(plan.must_signal_stop);
    assert!(plan.must_join_worker);
    assert_eq!(plan.status, RunStatus::Completed);
}

#[test]
fn failed_trigger_read_still_stops_the_worker() {
    // Even when the trigger source fails, the worker is signalled and
    // joined; the failure is surfaced as the run's status, not by leaking a
    // live worker.
    let plan = controller_plan(StopTrigger::ReadFailed);
    assert!(plan.must_signal_stop);
    assert!(plan.must_join_worker);
    assert_eq!(plan.status, RunStatus::StopTriggerReadFailure);
}
