//! The publisher's hand-off and its fixed publication target.
//!
//! Snapshots reach the publisher over a bounded hand-off slot: it holds at
//! most one snapshot, and a newer one replaces a stale one that was never
//! picked up, so stale snapshots are never buffered. Each snapshot goes to
//! the sink under one fixed key, fully replacing the previous object; a
//! failed push is dropped, and the next snapshot supersedes it.

use vstd::prelude::*;
use crate::snapshot::State;

verus! {

/// The bounded hand-off between the snapshot builder and the publisher:
/// room for one snapshot, latest wins.
#[derive(Debug)]
pub struct SnapshotSlot {
    /// The snapshot awaiting publication, if any.
    pub slot: Option<State>,
}

impl SnapshotSlot {
    /// An empty hand-off slot.
    pub fn new() -> (r: SnapshotSlot)
        ensures
            r.slot is None,
    {
        SnapshotSlot { slot: None }
    }

    /// Hand a fresh snapshot over, superseding any stale one still waiting.
    pub fn offer(&mut self, state: State)
        ensures
            final(self).slot == Some(state),
    {
        self.slot = Some(state);
    }

    /// Take the waiting snapshot for publication, leaving the slot empty.
    pub fn take(&mut self) -> (r: Option<State>)
        ensures
            final(self).slot is None,
            r == old(self).slot,
    {
        self.slot.take()
    }
}

/// Where and how a snapshot is published.
#[derive(Clone, Debug)]
pub struct PublicationTarget {
    /// The sink bucket.
    pub bucket: String,
    /// The fixed object key every snapshot replaces.
    pub key: String,
    /// The object's media type.
    pub content_type: String,
    /// How long consumers may cache the object.
    pub cache_control: String,
    /// The object's visibility.
    pub acl: String,
}

/// The fixed publication target: one public JSON object, replaced in
/// place by every snapshot and cached for at most five minutes.
pub fn publication_target() -> (r: PublicationTarget)
    ensures
        r.bucket@ == "precip-stats"@,
        r.key@ == "data.json"@,
        r.content_type@ == "application/json"@,
        r.cache_control@ == "max-age=300"@,
        r.acl@ == "public-read"@,
{
    PublicationTarget {
        bucket: "precip-stats".to_owned(),
        key: "data.json".to_owned(),
        content_type: "application/json".to_owned(),
        cache_control: "max-age=300".to_owned(),
        acl: "public-read".to_owned(),
    }
}

} // verus!
