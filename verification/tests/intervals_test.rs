use precip::intervals::{reconstruct_intervals, RunningInterval};
use precip::model::{ModuleId, PumpEvent};

fn id() -> ModuleId {
    ModuleId { hi: 1, lo: 1 }
}

fn ev(at: i64, running: bool) -> PumpEvent {
    PumpEvent { module: id(), at, running }
}

#[test]
fn matched_pair_yields_one_interval() {
    let events = vec![ev(1, true), ev(5, false)];
    let (intervals, warnings) = reconstruct_intervals(&events, 10);
    assert_eq!(intervals, vec![RunningInterval { start: 1, end: 5 }]);
    assert_eq!(warnings, 0);
}

#[test]
fn unmatched_stop_is_discarded_with_warning() {
    let events = vec![ev(3, false)];
    let (intervals, warnings) = reconstruct_intervals(&events, 10);
    assert!(intervals.is_empty());
    assert_eq!(warnings, 1);
}

#[test]
fn stop_after_matched_pair_is_discarded() {
    let events = vec![ev(1, true), ev(2, false), ev(4, false)];
    let (intervals, warnings) = reconstruct_intervals(&events, 10);
    assert_eq!(intervals, vec![RunningInterval { start: 1, end: 2 }]);
    assert_eq!(warnings, 1);
}

#[test]
fn trailing_start_closes_at_snapshot_time() {
    let events = vec![ev(4, true)];
    let (intervals, warnings) = reconstruct_intervals(&events, 10);
    assert_eq!(intervals, vec![RunningInterval { start: 4, end: 10 }]);
    assert!(intervals[0].start < 10);
    assert_eq!(warnings, 0);
}

#[test]
fn repeated_start_keeps_latest() {
    let events = vec![ev(1, true), ev(3, true), ev(5, false)];
    let (intervals, warnings) = reconstruct_intervals(&events, 10);
    assert_eq!(intervals, vec![RunningInterval { start: 3, end: 5 }]);
    assert_eq!(warnings, 0);
}

#[test]
fn reconstruction_is_idempotent() {
    let events = vec![ev(1, true), ev(2, false), ev(3, false), ev(4, true)];
    let first = reconstruct_intervals(&events, 9);
    let second = reconstruct_intervals(&events, 9);
    assert_eq!(first.0, second.0);
    assert_eq!(first.1, second.1);
}

#[test]
fn intervals_are_ordered_and_disjoint() {
    let events = vec![
        ev(1, true),
        ev(2, false),
        ev(2, true),
        ev(6, false),
        ev(7, true),
    ];
    let (intervals, warnings) = reconstruct_intervals(&events, 11);
    assert_eq!(
        intervals,
        vec![
            RunningInterval { start: 1, end: 2 },
            RunningInterval { start: 2, end: 6 },
            RunningInterval { start: 7, end: 11 },
        ]
    );
    assert_eq!(warnings, 0);
    for w in intervals.windows(2) {
        assert!(w[0].start <= w[0].end);
        assert!(w[0].end <= w[1].start);
    }
}

#[test]
fn empty_log_yields_nothing() {
    let events: Vec<PumpEvent> = Vec::new();
    let (intervals, warnings) = reconstruct_intervals(&events, 10);
    assert!(intervals.is_empty());
    assert_eq!(warnings, 0);
}
