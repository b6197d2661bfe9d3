//! The schedule-driven pump loop's decisions.
//!
//! A schedule-driven module activates its pump at times derived from a
//! recurring cron expression, for a fixed duration, independent of sensor
//! readings. The loop around it sleeps and commands the actuator; what is
//! decided here is the next run: when it starts and when it stops.

use vstd::prelude::*;
use std::str::FromStr;
use crate::model::ModuleConfig;

verus! {

/// Whether the cron crate accepts this schedule expression.
pub uninterp spec fn cron_valid(expr: Seq<char>) -> bool;

/// The first occurrence of the schedule strictly after the given instant,
/// in epoch seconds; a function of the expression and the instant alone.
pub uninterp spec fn cron_next(expr: Seq<char>, after: int) -> Option<i64>;

/// Relies on cron's `Schedule::from_str`: whether the expression parses as
/// a recurring schedule.
#[verifier::external_body]
pub(crate) fn schedule_expression_valid(expr: &str) -> (r: bool)
    ensures
        r == cron_valid(expr@),
{
    cron::Schedule::from_str(expr).is_ok()
}

/// Relies on cron's `Schedule::after`: the occurrences of a schedule
/// strictly after a given instant, of which this takes the first. Taken in
/// UTC on whole seconds, so the result depends on the expression and the
/// instant alone and lies strictly after it. cron steps one second past
/// the instant before scanning, so an instant at the calendar's upper
/// bound yields no occurrence rather than reaching that overflow.
#[verifier::external_body]
pub(crate) fn schedule_next_after(expr: &str, after: i64) -> (r: Option<i64>)
    ensures
        r == cron_next(expr@, after as int),
        (r matches Some(t) ==> t > after),
        !cron_valid(expr@) ==> r is None,
{
    let schedule = match cron::Schedule::from_str(expr) {
        Ok(s) => s,
        Err(_) => return None,
    };
    if after >= chrono::DateTime::<chrono::Utc>::MAX_UTC.timestamp() {
        return None;
    }
    let start = match chrono::DateTime::<chrono::Utc>::from_timestamp(after, 0) {
        Some(d) => d,
        None => return None,
    };
    schedule.after(&start).next().map(|d| d.timestamp())
}

/// One planned pump run: turn on at `start`, off at `stop`.
#[derive(Clone, Copy, Debug, PartialEq, Eq, Structural)]
pub struct PumpRun {
    /// When the pump turns on, in epoch seconds.
    pub start: i64,
    /// When the pump turns off, in epoch seconds.
    pub stop: i64,
}

/// When a run starting at `start` stops: the configured duration later,
/// clamped to the representable range.
pub open spec fn run_stop(start: i64, duration_secs: u64) -> i64 {
    if duration_secs > i64::MAX - start {
        i64::MAX
    } else {
        (start + duration_secs) as i64
    }
}

/// Plan a schedule-driven module's next pump run after the given instant.
/// `None` when the module has no schedule, or the schedule yields no
/// further occurrence: the loop around it then ends.
pub fn next_run(cfg: &ModuleConfig, after: i64) -> (r: Option<PumpRun>)
    requires
        after >= 0,
    ensures
        cfg.pump_schedule is None ==> r is None,
        (cfg.pump_schedule matches Some(expr) ==> r == (match cron_next(expr@, after as int) {
            Some(t) => Some(PumpRun { start: t, stop: run_stop(t, cfg.pump_duration_secs) }),
            None => None::<PumpRun>,
        })),
        (r matches Some(run) ==> run.start > after && run.start <= run.stop),
{
    match &cfg.pump_schedule {
        None => None,
        Some(expr) => match schedule_next_after(expr.as_str(), after) {
            None => None,
            Some(t) => {
                let headroom = (i64::MAX - t) as u64;
                let stop = if cfg.pump_duration_secs > headroom {
                    i64::MAX
                } else {
                    t + cfg.pump_duration_secs as i64
                };
                Some(PumpRun { start: t, stop })
            },
        },
    }
}

} // verus!
