use txlat::records::{ConfirmationOutcome, ConfirmationStatus};
use txlat::tracker::ConfirmationTracker;

fn outcome(tag: u8) -> ConfirmationOutcome {
    ConfirmationOutcome {
        id: vec![tag],
        status: ConfirmationStatus::Confirmed { block: Some(4), success: true },
        confirm_ms: 10 * tag as u64,
        block_distance: None,
    }
}

#[test]
fn all_identifiers_start_pending() {
    let tracker = ConfirmationTracker::new(vec![vec![0], vec![1], vec![2]]);
    assert_eq!(tracker.len(), 3);
    assert!(!tracker.is_done());
    assert_eq!(tracker.pending_indices(), vec![0, 1, 2]);
}

#[test]
fn resolved_identifiers_are_never_queried_again() {
    let mut tracker = ConfirmationTracker::new(vec![vec![0], vec![1], vec![2], vec![3]]);
    tracker.resolve(1, outcome(1));
    // The next round's query set excludes the identifier confirmed in
    // the prior round.
    assert_eq!(tracker.pending_indices(), vec![0, 2, 3]);
    tracker.resolve(3, outcome(3));
    assert_eq!(tracker.pending_indices(), vec![0, 2]);
    assert!(!tracker.is_done());
    tracker.resolve(0, outcome(0));
    tracker.resolve(2, outcome(2));
    assert!(tracker.is_done());
    assert_eq!(tracker.pending_indices(), Vec::<usize>::new());
}

#[test]
fn identifiers_are_kept_by_index() {
    let tracker = ConfirmationTracker::new(vec![vec![0xaa], vec![0xbb]]);
    assert_eq!(tracker.id_at(0), &vec![0xaa]);
    assert_eq!(tracker.id_at(1), &vec![0xbb]);
}

#[test]
fn outcomes_come_back_in_submission_order() {
    let mut tracker = ConfirmationTracker::new(vec![vec![0], vec![1], vec![2]]);
    // Resolution order differs from submission order.
    tracker.resolve(2, outcome(2));
    tracker.resolve(0, outcome(0));
    tracker.resolve(1, outcome(1));
    assert!(tracker.is_done());
    let outcomes = tracker.into_outcomes();
    assert_eq!(outcomes.len(), 3);
    for (i, o) in outcomes.iter().enumerate() {
        assert_eq!(o.id, vec![i as u8]);
        assert_eq!(o.confirm_ms, 10 * i as u64);
    }
}
