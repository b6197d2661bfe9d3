use precip::publish::{publication_target, SnapshotSlot};
use precip::snapshot::State;

fn snapshot(created: i64) -> State {
    State { created, modules: Vec::new() }
}

#[test]
fn newer_snapshot_supersedes_a_stale_one() {
    let mut slot = SnapshotSlot::new();
    slot.offer(snapshot(1));
    slot.offer(snapshot(2));
    let taken = slot.take().expect("a snapshot waits");
    assert_eq!(taken.created, 2);
    assert!(slot.take().is_none());
}

#[test]
fn taking_empties_the_slot() {
    let mut slot = SnapshotSlot::new();
    assert!(slot.take().is_none());
    slot.offer(snapshot(7));
    assert_eq!(slot.take().map(|s| s.created), Some(7));
    assert!(slot.take().is_none());
}

#[test]
fn fixed_publication_target() {
    let target = publication_target();
    assert_eq!(target.bucket, "precip-stats");
    assert_eq!(target.key, "data.json");
    assert_eq!(target.content_type, "application/json");
    assert_eq!(target.cache_control, "max-age=300");
    assert_eq!(target.acl, "public-read");
}
