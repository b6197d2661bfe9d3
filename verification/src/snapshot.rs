//! The snapshot builder.
//!
//! On a coarse tick it merges, for every module: the bucketed time-series
//! statistics, the latest summary statistics, and the running intervals
//! reconstructed from the pump event log, into one immutable `State` keyed
//! by module identifier. A module with no samples or events still appears,
//! with empty series and default flags.

use vstd::prelude::*;
use crate::ident::{hyphenated, hyphenated_id};
use crate::intervals::{
    discarded_stops, pending_after, reconstruct_intervals, reconstructed, sorted_by_at,
    RunningInterval,
};
use crate::model::{ModuleConfig, ModuleId, PumpEvent, SampleTimeseries, Stats};

verus! {

/// Bucketed statistics of one module's moisture, as parallel columns.
#[derive(Debug)]
pub struct Timeseries {
    /// Start of each time slice, in epoch seconds.
    pub measurement_start: Vec<i64>,
    /// Least moisture of each slice, in parts per million.
    pub min: Vec<u64>,
    /// Greatest moisture of each slice, in parts per million.
    pub max: Vec<u64>,
    /// First quartile of each slice.
    pub p25: Vec<u64>,
    /// Median of each slice.
    pub p50: Vec<u64>,
    /// Third quartile of each slice.
    pub p75: Vec<u64>,
}

/// One module's part of the published snapshot.
#[derive(Debug)]
pub struct Module {
    /// The hyphenated form of the module's identifier.
    pub id: String,
    /// Display name.
    pub name: String,
    /// Whether the pump is still running as of the snapshot.
    pub running: bool,
    /// Whether an operator override is active; never set by this core.
    pub force_running: bool,
    /// Least moisture observed, in parts per million.
    pub min_moisture: u64,
    /// Greatest moisture observed, in parts per million.
    pub max_moisture: u64,
    /// Most recent moisture, in parts per million.
    pub last_moisture: u64,
    /// The configured lower threshold, in parts per million.
    pub target_min_moisture: u64,
    /// The configured upper threshold, in parts per million.
    pub target_max_moisture: u64,
    /// The module's bucketed statistics.
    pub moisture_timeseries: Timeseries,
    /// The reconstructed running intervals, ordered by start time.
    pub pump_running: Vec<RunningInterval>,
}

/// The published artifact: every module's state at one point in time.
/// Immutable once built; each snapshot fully supersedes the previous one.
#[derive(Debug)]
pub struct State {
    /// When the snapshot was built, in epoch seconds.
    pub created: i64,
    /// One entry per configured module, in configuration order.
    pub modules: Vec<Module>,
}

/// Within each module, events come in ascending timestamp order; across
/// modules no order is required.
pub open spec fn per_module_sorted(events: Seq<PumpEvent>) -> bool {
    forall|i: int, j: int|
        0 <= i < j < events.len() && (#[trigger] events[i]).module == (
        #[trigger] events[j]).module ==> events[i].at <= events[j].at
}

/// The subsequence of `events` that belongs to module `id`, in order.
pub open spec fn events_for(id: ModuleId, events: Seq<PumpEvent>) -> Seq<PumpEvent>
    decreases events.len(),
{
    if events.len() == 0 {
        Seq::empty()
    } else if events.last().module == id {
        events_for(id, events.drop_last()).push(events.last())
    } else {
        events_for(id, events.drop_last())
    }
}

/// The subsequence of `samples` that belongs to module `id`, in order.
pub open spec fn samples_for(id: ModuleId, samples: Seq<SampleTimeseries>) -> Seq<
    SampleTimeseries,
>
    decreases samples.len(),
{
    if samples.len() == 0 {
        Seq::empty()
    } else if samples.last().module == id {
        samples_for(id, samples.drop_last()).push(samples.last())
    } else {
        samples_for(id, samples.drop_last())
    }
}

/// The last summary entry of module `id`, the one that wins.
pub open spec fn last_stats_for(id: ModuleId, stats: Seq<Stats>) -> Option<Stats>
    decreases stats.len(),
{
    if stats.len() == 0 {
        None
    } else if stats.last().module == id {
        Some(stats.last())
    } else {
        last_stats_for(id, stats.drop_last())
    }
}

/// The columns of `ts` transcribe `sf` slice by slice.
pub open spec fn timeseries_matches(ts: Timeseries, sf: Seq<SampleTimeseries>) -> bool {
    &&& ts.measurement_start@.len() == sf.len()
    &&& ts.min@.len() == sf.len()
    &&& ts.max@.len() == sf.len()
    &&& ts.p25@.len() == sf.len()
    &&& ts.p50@.len() == sf.len()
    &&& ts.p75@.len() == sf.len()
    &&& forall|j: int|
        0 <= j < sf.len() ==> ts.measurement_start@[j] == (#[trigger] sf[j]).slice
            && ts.min@[j] == sf[j].min_moisture && ts.max@[j] == sf[j].max_moisture
            && ts.p25@[j] == sf[j].p25_moisture && ts.p50@[j] == sf[j].p50_moisture
            && ts.p75@[j] == sf[j].p75_moisture
}

/// One snapshot entry is the merge, for its module, of configuration,
/// bucketed statistics, summary statistics and reconstructed intervals.
pub open spec fn module_matches(
    m: Module,
    cfg: ModuleConfig,
    samples: Seq<SampleTimeseries>,
    events: Seq<PumpEvent>,
    stats: Seq<Stats>,
    created: i64,
) -> bool {
    let evs = events_for(cfg.id, events);
    &&& m.id@ == hyphenated_id(cfg.id)
    &&& m.name@ == cfg.name@
    &&& m.running == (pending_after(evs) is Some)
    &&& m.force_running == false
    &&& (match last_stats_for(cfg.id, stats) {
        Some(s) => m.min_moisture == s.min_moisture && m.max_moisture == s.max_moisture
            && m.last_moisture == s.last_moisture,
        None => m.min_moisture == 0 && m.max_moisture == 0 && m.last_moisture == 0,
    })
    &&& m.target_min_moisture == cfg.min_moisture
    &&& m.target_max_moisture == cfg.max_moisture
    &&& timeseries_matches(m.moisture_timeseries, samples_for(cfg.id, samples))
    &&& m.pump_running@ == reconstructed(evs, created)
}

/// Every event of module `id` stays under any bound that all events obey.
proof fn lemma_events_for_at_bound(id: ModuleId, events: Seq<PumpEvent>, bound: i64)
    requires
        forall|i: int| 0 <= i < events.len() ==> (#[trigger] events[i]).at <= bound,
    ensures
        forall|k: int|
            0 <= k < events_for(id, events).len() ==> (#[trigger] events_for(id, events)[k]).at
                <= bound,
    decreases events.len(),
{
    if events.len() > 0 {
        let prefix = events.drop_last();
        assert(forall|i: int| 0 <= i < prefix.len() ==> prefix[i] == events[i]);
        lemma_events_for_at_bound(id, prefix, bound);
        let sub = events_for(id, prefix);
        let cur = events_for(id, events);
        if events.last().module == id {
            assert(cur == sub.push(events.last()));
            assert forall|k: int| 0 <= k < cur.len() implies (#[trigger] cur[k]).at <= bound by {
                if k < sub.len() {
                    assert(cur[k] == sub.push(events.last())[k]);
                    assert(sub.push(events.last())[k] == sub[k]);
                }
            }
        } else {
            assert(cur == sub);
            assert forall|k: int| 0 <= k < cur.len() implies (#[trigger] cur[k]).at <= bound by {
                assert(cur[k] == sub[k]);
            }
        }
    }
}

/// Collect module `id`'s events, in their stored order, which within one
/// module is ascending by timestamp.
fn module_events(id: ModuleId, events: &Vec<PumpEvent>) -> (r: Vec<PumpEvent>)
    requires
        per_module_sorted(events@),
    ensures
        r@ == events_for(id, events@),
        sorted_by_at(r@),
{
    let n = events.len();
    let mut out: Vec<PumpEvent> = Vec::new();
    let mut k: usize = 0;
    while k < n
        invariant
            k <= n,
            n == events@.len(),
            per_module_sorted(events@),
            out@ == events_for(id, events@.take(k as int)),
            sorted_by_at(out@),
            out@.len() > 0 ==> (exists|j: int|
                0 <= j < k && out@.last() == events@[j] && (#[trigger] events@[j]).module == id),
        decreases n - k,
    {
        proof {
            assert(events@.take(k + 1).drop_last() =~= events@.take(k as int));
            assert(events@.take(k + 1).last() == events@[k as int]);
        }
        let e = events[k];
        if e.module == id {
            proof {
                if out@.len() > 0 {
                    let j = choose|j: int|
                        0 <= j < k && out@.last() == events@[j] && (
                        #[trigger] events@[j]).module == id;
                    assert(events@[j].at <= events@[k as int].at);
                    assert forall|m: int| 0 <= m < out@.len() implies (#[trigger] out@[m]).at
                        <= e.at by {
                        if m < out@.len() - 1 {
                            assert(out@[m].at <= out@.last().at);
                        }
                    }
                }
            }
            out.push(e);
            proof {
                assert(out@.last() == events@[k as int]);
                assert forall|a: int, b: int|
                    0 <= a < b < out@.len() implies (#[trigger] out@[a]).at <= (
                #[trigger] out@[b]).at by {
                    if b < out@.len() - 1 {
                        assert(out@[a] == out@.drop_last()[a]);
                        assert(out@[b] == out@.drop_last()[b]);
                    } else {
                        assert(out@[a] == out@.drop_last()[a]);
                    }
                }
            }
        }
        k = k + 1;
    }
    proof {
        assert(events@.take(n as int) =~= events@);
    }
    out
}

/// Collect module `id`'s bucketed statistics, in their stored order.
fn module_samples(id: ModuleId, samples: &Vec<SampleTimeseries>) -> (r: Vec<SampleTimeseries>)
    ensures
        r@ == samples_for(id, samples@),
{
    let n = samples.len();
    let mut out: Vec<SampleTimeseries> = Vec::new();
    let mut k: usize = 0;
    while k < n
        invariant
            k <= n,
            n == samples@.len(),
            out@ == samples_for(id, samples@.take(k as int)),
        decreases n - k,
    {
        proof {
            assert(samples@.take(k + 1).drop_last() =~= samples@.take(k as int));
            assert(samples@.take(k + 1).last() == samples@[k as int]);
        }
        let s = samples[k];
        if s.module == id {
            out.push(s);
        }
        k = k + 1;
    }
    proof {
        assert(samples@.take(n as int) =~= samples@);
    }
    out
}

/// Find module `id`'s summary statistics; a later entry wins.
fn module_stats(id: ModuleId, stats: &Vec<Stats>) -> (r: Option<Stats>)
    ensures
        r == last_stats_for(id, stats@),
{
    let n = stats.len();
    let mut cur: Option<Stats> = None;
    let mut k: usize = 0;
    while k < n
        invariant
            k <= n,
            n == stats@.len(),
            cur == last_stats_for(id, stats@.take(k as int)),
        decreases n - k,
    {
        proof {
            assert(stats@.take(k + 1).drop_last() =~= stats@.take(k as int));
            assert(stats@.take(k + 1).last() == stats@[k as int]);
        }
        let s = stats[k];
        if s.module == id {
            cur = Some(s);
        }
        k = k + 1;
    }
    proof {
        assert(stats@.take(n as int) =~= stats@);
    }
    cur
}

/// Transcribe one module's bucket rows into the snapshot's columns.
fn build_timeseries(rows: &Vec<SampleTimeseries>) -> (r: Timeseries)
    ensures
        timeseries_matches(r, rows@),
{
    let n = rows.len();
    let mut ts = Timeseries {
        measurement_start: Vec::new(),
        min: Vec::new(),
        max: Vec::new(),
        p25: Vec::new(),
        p50: Vec::new(),
        p75: Vec::new(),
    };
    let mut k: usize = 0;
    while k < n
        invariant
            k <= n,
            n == rows@.len(),
            timeseries_matches(ts, rows@.take(k as int)),
        decreases n - k,
    {
        let row = rows[k];
        ts.measurement_start.push(row.slice);
        ts.min.push(row.min_moisture);
        ts.max.push(row.max_moisture);
        ts.p25.push(row.p25_moisture);
        ts.p50.push(row.p50_moisture);
        ts.p75.push(row.p75_moisture);
        k = k + 1;
        proof {
            assert(rows@.take(k as int).drop_last() =~= rows@.take(k - 1));
            assert forall|j: int| 0 <= j < k implies ts.measurement_start@[j] == (
            #[trigger] rows@.take(k as int)[j]).slice && ts.min@[j] == rows@.take(
                k as int,
            )[j].min_moisture && ts.max@[j] == rows@.take(k as int)[j].max_moisture && ts.p25@[j]
                == rows@.take(k as int)[j].p25_moisture && ts.p50@[j] == rows@.take(
                k as int,
            )[j].p50_moisture && ts.p75@[j] == rows@.take(k as int)[j].p75_moisture by {
                if j < k - 1 {
                    assert(rows@.take(k as int)[j] == rows@.take(k - 1)[j]);
                }
            }
        }
    }
    proof {
        assert(rows@.take(n as int) =~= rows@);
    }
    ts
}

impl State {
    /// Build the snapshot of all configured modules as of `created`, from
    /// the bucketed statistics, the pump event log and the summary
    /// statistics read back from storage. Beside the snapshot, report for
    /// each module how many inconsistent stop events its log held: those
    /// are discarded, and the caller logs them as consistency warnings.
    pub fn new(
        created: i64,
        loaded_modules: &Vec<ModuleConfig>,
        timeseries_samples: &Vec<SampleTimeseries>,
        pump_events: &Vec<PumpEvent>,
        stats: &Vec<Stats>,
    ) -> (r: (State, Vec<usize>))
        requires
            per_module_sorted(pump_events@),
            forall|i: int| 0 <= i < pump_events@.len() ==> (#[trigger] pump_events@[i]).at
                <= created,
        ensures
            r.0.created == created,
            r.0.modules@.len() == loaded_modules@.len(),
            forall|k: int|
                0 <= k < loaded_modules@.len() ==> module_matches(
                    #[trigger] r.0.modules@[k],
                    loaded_modules@[k],
                    timeseries_samples@,
                    pump_events@,
                    stats@,
                    created,
                ),
            r.1@.len() == loaded_modules@.len(),
            forall|k: int|
                0 <= k < loaded_modules@.len() ==> #[trigger] r.1@[k] == discarded_stops(
                    events_for(loaded_modules@[k].id, pump_events@),
                ),
    {
        let n = loaded_modules.len();
        let mut modules: Vec<Module> = Vec::new();
        let mut discarded: Vec<usize> = Vec::new();
        let mut m: usize = 0;
        while m < n
            invariant
                m <= n,
                n == loaded_modules@.len(),
                per_module_sorted(pump_events@),
                forall|i: int| 0 <= i < pump_events@.len() ==> (#[trigger] pump_events@[i]).at
                    <= created,
                modules@.len() == m,
                forall|k: int|
                    0 <= k < m ==> module_matches(
                        #[trigger] modules@[k],
                        loaded_modules@[k],
                        timeseries_samples@,
                        pump_events@,
                        stats@,
                        created,
                    ),
                discarded@.len() == m,
                forall|k: int|
                    0 <= k < m ==> #[trigger] discarded@[k] == discarded_stops(
                        events_for(loaded_modules@[k].id, pump_events@),
                    ),
            decreases n - m,
        {
            let cfg = &loaded_modules[m];
            let evs = module_events(cfg.id, pump_events);
            proof {
                lemma_events_for_at_bound(cfg.id, pump_events@, created);
            }
            let (pump_running, warnings) = reconstruct_intervals(&evs, created);
            let running = if evs.len() > 0 {
                evs[evs.len() - 1].running
            } else {
                false
            };
            let rows = module_samples(cfg.id, timeseries_samples);
            let moisture_timeseries = build_timeseries(&rows);
            let (min_moisture, max_moisture, last_moisture) = match module_stats(cfg.id, stats) {
                Some(s) => (s.min_moisture, s.max_moisture, s.last_moisture),
                None => (0, 0, 0),
            };
            let entry = Module {
                id: hyphenated(cfg.id),
                name: cfg.name.clone(),
                running,
                force_running: false,
                min_moisture,
                max_moisture,
                last_moisture,
                target_min_moisture: cfg.min_moisture,
                target_max_moisture: cfg.max_moisture,
                moisture_timeseries,
                pump_running,
            };
            proof {
                assert(module_matches(
                    entry,
                    loaded_modules@[m as int],
                    timeseries_samples@,
                    pump_events@,
                    stats@,
                    created,
                ));
            }
            modules.push(entry);
            discarded.push(warnings);
            m = m + 1;
        }
        (State { created, modules }, discarded)
    }
}

} // verus!
