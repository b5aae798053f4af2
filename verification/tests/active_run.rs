use bhtune_server::active_run::{CancelTarget, RunAlreadyActive, RunRegistry};

fn cancels_something(registry: &RunRegistry, run_id: i64) -> bool {
    registry.cancel_target(run_id) != CancelTarget::Nothing
}

#[test]
fn start_registers_runs_and_releases_a_completed_task() {
    let mut active = RunRegistry::new();
    active.start(1).unwrap();
    assert_eq!(active.active_run_ids(), vec![1]);
    // The finished task releases its own registration.
    active.release(1);
    assert!(active.active_run_ids().is_empty());
    assert!(active.reserve(2).is_ok());
    active.release(2);
}

#[test]
fn start_allows_multiple_runs_while_they_are_active() {
    let mut active = RunRegistry::new();
    active.start(1).unwrap();
    active.start(2).unwrap();
    assert_eq!(active.active_run_ids(), vec![1, 2]);
}

#[test]
fn release_frees_the_slot_for_the_matching_run_id() {
    let mut active = RunRegistry::new();
    active.start(1).unwrap();
    active.release(1);
    assert!(active.active_run_ids().is_empty());
}

#[test]
fn releasing_one_run_keeps_other_runs_registered() {
    let mut active = RunRegistry::new();
    active.start(1).unwrap();
    active.start(2).unwrap();
    active.release(1);
    assert_eq!(active.active_run_ids(), vec![2]);
}

#[test]
fn release_is_a_no_op_for_a_non_matching_run_id() {
    let mut active = RunRegistry::new();
    active.start(1).unwrap();
    active.release(999);
    assert_eq!(active.active_run_ids(), vec![1]);
}

#[test]
fn reserve_registers_an_exclusive_operation_without_spawning_anything() {
    let mut active = RunRegistry::new();
    active.reserve(1).unwrap();
    assert_eq!(active.exclusive_id(), Some(1));
    assert!(active.active_run_ids().is_empty());
}

#[test]
fn reserve_refuses_while_a_spawned_task_is_active() {
    let mut active = RunRegistry::new();
    active.start(1).unwrap();
    let err = active.reserve(2).unwrap_err();
    assert_eq!(err, RunAlreadyActive { run_id: 1 });
}

#[test]
fn start_refuses_while_a_reservation_is_active() {
    let mut active = RunRegistry::new();
    active.reserve(1).unwrap();
    let err = active.start(2).unwrap_err();
    assert_eq!(err, RunAlreadyActive { run_id: 1 });
}

#[test]
fn rejected_start_drops_the_unscheduled_task_and_keeps_the_reservation() {
    let mut active = RunRegistry::new();
    active.reserve(1).unwrap();
    let err = active.start(2).unwrap_err();
    assert_eq!(err, RunAlreadyActive { run_id: 1 });
    assert_eq!(active.exclusive_id(), Some(1));
    assert!(active.active_run_ids().is_empty());
}

#[test]
fn start_refuses_a_duplicate_run_id_while_the_task_is_active() {
    let mut active = RunRegistry::new();
    active.start(1).unwrap();
    let err = active.start(1).unwrap_err();
    assert_eq!(err, RunAlreadyActive { run_id: 1 });
}

#[test]
fn reserve_refuses_a_second_reservation_while_one_is_active() {
    let mut active = RunRegistry::new();
    active.reserve(1).unwrap();
    let err = active.reserve(2).unwrap_err();
    assert_eq!(err, RunAlreadyActive { run_id: 1 });
}

#[test]
fn release_frees_a_reserved_slot() {
    let mut active = RunRegistry::new();
    active.reserve(1).unwrap();
    active.release(1);
    assert_eq!(active.exclusive_id(), None);
}

#[test]
fn cancel_returns_true_for_a_reservation_but_has_nothing_to_trigger() {
    let mut active = RunRegistry::new();
    active.reserve(1).unwrap();
    assert_eq!(active.cancel_target(1), CancelTarget::Exclusive);
    assert!(cancels_something(&active, 1));
    assert_eq!(active.exclusive_id(), Some(1));
}

#[test]
fn cancel_and_wait_clears_a_reservation_immediately_without_waiting() {
    let mut active = RunRegistry::new();
    active.reserve(1).unwrap();
    assert!(active.take_all().is_empty());
    assert_eq!(active.exclusive_id(), None);
}

#[test]
fn cancel_returns_true_for_the_matching_run_id() {
    let mut active = RunRegistry::new();
    active.start(1).unwrap();
    assert_eq!(active.cancel_target(1), CancelTarget::Task);
    assert!(cancels_something(&active, 1));
}

#[test]
fn cancel_returns_false_for_a_non_matching_run_id() {
    let mut active = RunRegistry::new();
    active.start(1).unwrap();
    assert!(!cancels_something(&active, 999));
}

#[test]
fn cancel_returns_false_when_nothing_is_active() {
    let active = RunRegistry::new();
    assert!(!cancels_something(&active, 1));
}

#[test]
fn cancel_and_wait_is_a_no_op_when_nothing_is_active() {
    let mut active = RunRegistry::new();
    assert!(active.take_all().is_empty());
    assert!(active.active_run_ids().is_empty());
    assert_eq!(active.exclusive_id(), None);
}

#[test]
fn cancel_and_wait_waits_for_all_spawned_tasks() {
    let mut active = RunRegistry::new();
    active.start(1).unwrap();
    active.start(2).unwrap();
    assert_eq!(active.take_all(), vec![1, 2]);
    assert!(active.active_run_ids().is_empty());
    // A task that finishes after shutdown took the registry releases nothing else.
    active.release(1);
    assert!(active.active_run_ids().is_empty());
}
