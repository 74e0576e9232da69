//! The registry: seeding, check-and-set transitions, lookups, snapshots.

use funky_lesson_core::registry::{FailReason, Registry, TargetState};

fn seeded(ids: &[&str]) -> Registry {
    Registry::new(ids.iter().map(|s| s.to_string()).collect())
}

#[test]
fn new_registry_is_all_waiting() {
    let reg = seeded(&["a", "b", "c"]);
    assert_eq!(reg.len(), 3);
    for i in 0..3 {
        assert_eq!(reg.get(i), TargetState::Waiting);
    }
    assert!(reg.any_waiting());
}

#[test]
fn transition_from_waiting_succeeds() {
    let mut reg = seeded(&["a", "b"]);
    assert!(reg.try_transition(0, TargetState::Done));
    assert_eq!(reg.get(0), TargetState::Done);
    assert_eq!(reg.get(1), TargetState::Waiting);
}

#[test]
fn terminal_states_never_transition_again() {
    let mut reg = seeded(&["a"]);
    assert!(reg.try_transition(0, TargetState::Done));
    assert!(!reg.try_transition(0, TargetState::Failed(FailReason::Unauthorized)));
    assert_eq!(reg.get(0), TargetState::Done);
    assert!(!reg.try_transition(0, TargetState::Done));
    assert_eq!(reg.get(0), TargetState::Done);

    let mut reg2 = seeded(&["a"]);
    assert!(reg2.try_transition(0, TargetState::Failed(FailReason::CapacityFull)));
    assert!(!reg2.try_transition(0, TargetState::Done));
    assert_eq!(reg2.get(0), TargetState::Failed(FailReason::CapacityFull));
}

#[test]
fn racing_done_writes_observe_one_success() {
    let mut reg = seeded(&["a"]);
    let mut successes = 0;
    for _worker in 0..4 {
        if reg.try_transition(0, TargetState::Done) {
            successes += 1;
        }
    }
    assert_eq!(successes, 1);
    assert_eq!(reg.get(0), TargetState::Done);
}

#[test]
fn find_index_returns_first_match() {
    let reg = seeded(&["a", "b", "c"]);
    assert_eq!(reg.find_index("a"), Some(0));
    assert_eq!(reg.find_index("c"), Some(2));
    assert_eq!(reg.find_index("zz"), None);
}

#[test]
fn state_of_reads_by_id() {
    let mut reg = seeded(&["a", "b"]);
    reg.try_transition(1, TargetState::Done);
    assert_eq!(reg.state_of("a"), Some(TargetState::Waiting));
    assert_eq!(reg.state_of("b"), Some(TargetState::Done));
    assert_eq!(reg.state_of("missing"), None);
}

#[test]
fn transition_by_id_hits_the_named_target_only() {
    let mut reg = seeded(&["a", "b"]);
    assert!(reg.try_transition_by_id("b", TargetState::Done));
    assert_eq!(reg.get(0), TargetState::Waiting);
    assert_eq!(reg.get(1), TargetState::Done);
    // terminal stays terminal, unknown ids change nothing
    assert!(!reg.try_transition_by_id("b", TargetState::Failed(FailReason::CapacityFull)));
    assert_eq!(reg.get(1), TargetState::Done);
    assert!(!reg.try_transition_by_id("zz", TargetState::Done));
    assert_eq!(reg.get(0), TargetState::Waiting);
}

#[test]
fn snapshot_lists_ids_and_states_in_order() {
    let mut reg = seeded(&["a", "b", "c"]);
    reg.try_transition(1, TargetState::Failed(FailReason::Unauthorized));
    let snap = reg.snapshot();
    assert_eq!(snap.len(), 3);
    assert_eq!(snap[0], ("a".to_string(), TargetState::Waiting));
    assert_eq!(snap[1], ("b".to_string(), TargetState::Failed(FailReason::Unauthorized)));
    assert_eq!(snap[2], ("c".to_string(), TargetState::Waiting));
}

#[test]
fn any_waiting_goes_false_once_all_terminal() {
    let mut reg = seeded(&["a", "b"]);
    assert!(reg.any_waiting());
    reg.try_transition(0, TargetState::Done);
    assert!(reg.any_waiting());
    reg.try_transition(1, TargetState::Failed(FailReason::CapacityFull));
    assert!(!reg.any_waiting());
}

#[test]
fn empty_registry_has_nothing_waiting() {
    let reg = seeded(&[]);
    assert_eq!(reg.len(), 0);
    assert!(!reg.any_waiting());
    assert!(reg.snapshot().is_empty());
}
