//! Reconstruction of continuous pump-running intervals from the event log.
//!
//! The snapshot builder scans one module's pump events in ascending
//! timestamp order, keeping at most one pending start. A `true` event sets
//! the pending start, overwriting an earlier one (a start after a start is
//! a tolerated anomaly: the latest start is authoritative). A `false` event
//! closes the pending start into an interval, or, with no pending start, is
//! an inconsistency: it is counted and discarded, never emitted as a
//! negative or zero-length interval. A pending start left at the end of the
//! scan closes at the snapshot timestamp.

use vstd::prelude::*;
use crate::model::PumpEvent;

verus! {

/// A `[start, end)` span during which a module's pump ran continuously.
/// Derived from the event log, never stored.
#[derive(Clone, Copy, Debug, PartialEq, Eq, Structural)]
pub struct RunningInterval {
    /// When the pump turned on, in epoch seconds.
    pub start: i64,
    /// When the pump turned off, or the snapshot timestamp if still running.
    pub end: i64,
}

/// Events are in ascending timestamp order.
pub open spec fn sorted_by_at(events: Seq<PumpEvent>) -> bool {
    forall|i: int, j: int|
        0 <= i < j < events.len() ==> #[trigger] events[i].at <= #[trigger] events[j].at
}

/// The pending start after scanning `events`: a start is pending exactly
/// when the last event turned the pump on.
pub open spec fn pending_after(events: Seq<PumpEvent>) -> Option<i64> {
    if events.len() == 0 {
        None
    } else if events.last().running {
        Some(events.last().at)
    } else {
        None
    }
}

/// The intervals closed by a stop event within `events` (without the one a
/// trailing pending start would add).
pub open spec fn closed_intervals(events: Seq<PumpEvent>) -> Seq<RunningInterval>
    decreases events.len(),
{
    if events.len() == 0 {
        Seq::empty()
    } else {
        let prefix = events.drop_last();
        let e = events.last();
        if e.running {
            closed_intervals(prefix)
        } else {
            match pending_after(prefix) {
                Some(p) => closed_intervals(prefix).push(
                    RunningInterval { start: p, end: e.at },
                ),
                None => closed_intervals(prefix),
            }
        }
    }
}

/// How many stop events had no pending start and were discarded.
pub open spec fn discarded_stops(events: Seq<PumpEvent>) -> nat
    decreases events.len(),
{
    if events.len() == 0 {
        0
    } else {
        discarded_stops(events.drop_last()) + if !events.last().running
            && pending_after(events.drop_last()) is None {
            1nat
        } else {
            0nat
        }
    }
}

/// The full reconstruction as of `now`: the closed intervals, plus one
/// interval ending at `now` when a start is still pending.
pub open spec fn reconstructed(events: Seq<PumpEvent>, now: i64) -> Seq<RunningInterval> {
    match pending_after(events) {
        Some(p) => closed_intervals(events).push(RunningInterval { start: p, end: now }),
        None => closed_intervals(events),
    }
}

/// Every interval runs forward, and the intervals are ordered: each ends no
/// later than the next begins.
pub open spec fn intervals_ordered(ivals: Seq<RunningInterval>) -> bool {
    &&& forall|k: int| 0 <= k < ivals.len() ==> (#[trigger] ivals[k]).start <= ivals[k].end
    &&& forall|k: int| 0 <= k && k + 1 < ivals.len() ==> (#[trigger] ivals[k]).end <= ivals[k + 1].start
}

/// Scan one module's event log, ascending by timestamp, into its running
/// intervals as of `now`, and count the inconsistent stop events that were
/// discarded.
pub fn reconstruct_intervals(events: &Vec<PumpEvent>, now: i64) -> (r: (
    Vec<RunningInterval>,
    usize,
))
    requires
        sorted_by_at(events@),
        forall|i: int| 0 <= i < events@.len() ==> (#[trigger] events@[i]).at <= now,
    ensures
        r.0@ == reconstructed(events@, now),
        r.1 == discarded_stops(events@),
        intervals_ordered(r.0@),
{
    proof {
        lemma_reconstructed_wellformed(events@, now);
    }
    let n = events.len();
    let mut out: Vec<RunningInterval> = Vec::new();
    let mut warnings: usize = 0;
    let mut pending: Option<i64> = None;
    let mut k: usize = 0;
    while k < n
        invariant
            k <= n,
            n == events@.len(),
            out@ == closed_intervals(events@.take(k as int)),
            pending == pending_after(events@.take(k as int)),
            warnings == discarded_stops(events@.take(k as int)),
            warnings <= k,
        decreases n - k,
    {
        proof {
            assert(events@.take(k + 1).drop_last() =~= events@.take(k as int));
            assert(events@.take(k + 1).last() == events@[k as int]);
        }
        let e = events[k];
        if e.running {
            pending = Some(e.at);
        } else {
            match pending {
                Some(p) => {
                    out.push(RunningInterval { start: p, end: e.at });
                    pending = None;
                },
                None => {
                    warnings = warnings + 1;
                },
            }
        }
        k = k + 1;
    }
    proof {
        assert(events@.take(n as int) =~= events@);
    }
    if let Some(p) = pending {
        out.push(RunningInterval { start: p, end: now });
    }
    (out, warnings)
}

/// The closed intervals of a sorted log run forward, are ordered, end no
/// later than the last event, and end no later than any pending start.
#[verifier::rlimit(60)]
proof fn lemma_closed_intervals_props(events: Seq<PumpEvent>)
    requires
        sorted_by_at(events),
    ensures
        intervals_ordered(closed_intervals(events)),
        closed_intervals(events).len() > 0 ==> events.len() > 0
            && closed_intervals(events).last().end <= events.last().at,
    decreases events.len(),
{
    if events.len() > 0 {
        let prefix = events.drop_last();
        let e = events.last();
        assert(forall|i: int| 0 <= i < prefix.len() ==> prefix[i] == events[i]);
        lemma_closed_intervals_props(prefix);
        if prefix.len() > 0 {
            assert(prefix.last() == events[events.len() - 2]);
            assert(prefix.last().at <= e.at);
        }
        if !e.running && pending_after(prefix) is Some {
            let p = pending_after(prefix)->Some_0;
            let prev = closed_intervals(prefix);
            let ival = RunningInterval { start: p, end: e.at };
            assert(p == prefix.last().at);
            assert(p <= e.at);
            let cur = closed_intervals(events);
            assert(cur == prev.push(ival));
            assert forall|k: int| 0 <= k < cur.len() implies (#[trigger] cur[k]).start
                <= cur[k].end by {
                if k < prev.len() {
                    assert(cur[k] == prev.push(ival)[k]);
                    assert(prev.push(ival)[k] == prev[k]);
                }
            }
            assert forall|k: int| 0 <= k && k + 1 < cur.len() implies (#[trigger] cur[k]).end
                <= cur[k + 1].start by {
                assert(cur[k] == prev.push(ival)[k]);
                assert(prev.push(ival)[k] == prev[k]);
                if k + 1 < prev.len() {
                    assert(cur[k + 1] == prev.push(ival)[k + 1]);
                    assert(prev.push(ival)[k + 1] == prev[k + 1]);
                } else {
                    assert(prev.last().end <= prefix.last().at);
                }
            }
        }
    }
}

/// Chain the adjacent ordering into the pairwise one.
proof fn lemma_ordered_pair(ivals: Seq<RunningInterval>, i: int, j: int)
    requires
        intervals_ordered(ivals),
        0 <= i < j < ivals.len(),
    ensures
        ivals[i].end <= ivals[j].start,
    decreases j - i,
{
    if j == i + 1 {
    } else {
        lemma_ordered_pair(ivals, i, j - 1);
    }
}

/// For any sorted event log of one module, the reconstructed running
/// intervals run forward, are ordered by start time, and are pairwise
/// non-overlapping.
#[verifier::rlimit(60)]
pub proof fn lemma_reconstructed_wellformed(events: Seq<PumpEvent>, now: i64)
    requires
        sorted_by_at(events),
        forall|i: int| 0 <= i < events.len() ==> (#[trigger] events[i]).at <= now,
    ensures
        intervals_ordered(reconstructed(events, now)),
        forall|i: int, j: int|
            0 <= i < j < reconstructed(events, now).len()
                ==> (#[trigger] reconstructed(events, now)[i]).end
                <= (#[trigger] reconstructed(events, now)[j]).start,
{
    lemma_closed_intervals_props(events);
    let r = reconstructed(events, now);
    let prev = closed_intervals(events);
    if pending_after(events) is Some {
        let p = pending_after(events)->Some_0;
        let ival = RunningInterval { start: p, end: now };
        assert(p == events.last().at);
        assert(p <= now);
        assert(r == prev.push(ival));
        assert forall|k: int| 0 <= k < r.len() implies (#[trigger] r[k]).start <= r[k].end by {
            if k < prev.len() {
                assert(r[k] == prev.push(ival)[k]);
                assert(prev.push(ival)[k] == prev[k]);
            }
        }
        assert forall|k: int| 0 <= k && k + 1 < r.len() implies (#[trigger] r[k]).end
            <= r[k + 1].start by {
            assert(r[k] == prev.push(ival)[k]);
            assert(prev.push(ival)[k] == prev[k]);
            if k + 1 < prev.len() {
                assert(r[k + 1] == prev.push(ival)[k + 1]);
                assert(prev.push(ival)[k + 1] == prev[k + 1]);
            } else {
                assert(prev.last().end <= events.last().at);
            }
        }
    }
    assert forall|i: int, j: int| 0 <= i < j < r.len() implies (#[trigger] r[i]).end
        <= (#[trigger] r[j]).start by {
        lemma_ordered_pair(r, i, j);
    }
}

/// A stop event with no pending start is discarded with a warning: it adds
/// no interval, and in particular never a negative or zero-length one.
pub proof fn lemma_unmatched_stop_discarded(events: Seq<PumpEvent>, i: int)
    requires
        0 <= i < events.len(),
        !events[i].running,
        pending_after(events.take(i)) is None,
    ensures
        closed_intervals(events.take(i + 1)) == closed_intervals(events.take(i)),
        discarded_stops(events.take(i + 1)) == discarded_stops(events.take(i)) + 1,
        pending_after(events.take(i + 1)) is None,
{
    assert(events.take(i + 1).drop_last() =~= events.take(i));
    assert(events.take(i + 1).last() == events[i]);
}

/// A trailing unmatched start produces exactly one interval more than the
/// closed ones, ending at the snapshot timestamp `now` and starting before
/// it.
pub proof fn lemma_trailing_start(events: Seq<PumpEvent>, now: i64)
    requires
        events.len() > 0,
        events.last().running,
        events.last().at < now,
    ensures
        reconstructed(events, now).len() == closed_intervals(events).len() + 1,
        reconstructed(events, now).last() == (RunningInterval {
            start: events.last().at,
            end: now,
        }),
        reconstructed(events, now).last().start < now,
{
}

/// Reconstruction is deterministic: re-running it on the same event log
/// with the same snapshot timestamp yields the identical intervals and the
/// identical warning count.
pub proof fn lemma_reconstruction_repeatable(
    e1: Seq<PumpEvent>,
    e2: Seq<PumpEvent>,
    now1: i64,
    now2: i64,
)
    requires
        e1 == e2,
        now1 == now2,
    ensures
        reconstructed(e1, now1) == reconstructed(e2, now2),
        discarded_stops(e1) == discarded_stops(e2),
{
}

} // verus!
