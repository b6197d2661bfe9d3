//! Shared data model of the controller core.
//!
//! Timestamps are epoch seconds. Moisture fractions are parts per million of
//! full wetness; raw readings are microvolts (see `calib`).

use vstd::prelude::*;
use crate::calib::CalibrationBounds;

verus! {

/// Stable identifier of one irrigation module; the 128 bits of its UUID.
#[derive(Clone, Copy, Debug, PartialEq, Eq, Structural)]
pub struct ModuleId {
    /// The most significant 64 bits.
    pub hi: u64,
    /// The least significant 64 bits.
    pub lo: u64,
}

/// One pump state transition, recorded exactly when the actuator's
/// commanded state changes. Append-only.
#[derive(Clone, Copy, Debug, PartialEq, Eq, Structural)]
pub struct PumpEvent {
    /// The module whose pump changed state.
    pub module: ModuleId,
    /// When the transition happened, in epoch seconds.
    pub at: i64,
    /// The new state: true when the pump was turned on.
    pub running: bool,
}

/// One storage-computed aggregate of a module's moisture over a time slice.
/// Read-only from the core's perspective.
#[derive(Clone, Copy, Debug, PartialEq, Eq, Structural)]
pub struct SampleTimeseries {
    /// The module the slice belongs to.
    pub module: ModuleId,
    /// Start of the time slice, in epoch seconds.
    pub slice: i64,
    /// Least moisture over the slice, in parts per million.
    pub min_moisture: u64,
    /// Greatest moisture over the slice, in parts per million.
    pub max_moisture: u64,
    /// First quartile of moisture over the slice.
    pub p25_moisture: u64,
    /// Median moisture over the slice.
    pub p50_moisture: u64,
    /// Third quartile of moisture over the slice.
    pub p75_moisture: u64,
}

/// A module's latest summary statistics, as stored.
#[derive(Clone, Copy, Debug, PartialEq, Eq, Structural)]
pub struct Stats {
    /// The module the summary belongs to.
    pub module: ModuleId,
    /// Least moisture observed, in parts per million.
    pub min_moisture: u64,
    /// Greatest moisture observed, in parts per million.
    pub max_moisture: u64,
    /// Most recent moisture, in parts per million.
    pub last_moisture: u64,
}

/// The stored extreme raw readings of one module's signal.
#[derive(Clone, Copy, Debug, PartialEq, Eq, Structural)]
pub struct SampleRange {
    /// The module the range belongs to.
    pub module: ModuleId,
    /// Least raw reading, in microvolts.
    pub min_raw: u64,
    /// Greatest raw reading, in microvolts.
    pub max_raw: u64,
}

/// Site-wide summary statistics, as stored.
#[derive(Clone, Copy, Debug, PartialEq, Eq, Structural)]
pub struct GlobalStats {
    /// Ambient temperature, in thousandths of a degree Celsius.
    pub temperature_milli: i64,
}

/// Validated configuration of one irrigation module; immutable for the
/// process lifetime.
#[derive(Clone, Debug)]
pub struct ModuleConfig {
    /// Stable identifier; survives restarts.
    pub id: ModuleId,
    /// Display name.
    pub name: String,
    /// Free-form description.
    pub description: String,
    /// Bus address of the converter that carries the moisture sensor.
    pub moisture_i2c_address: u16,
    /// Analog input of the converter, one of its four channels.
    pub moisture_channel: u8,
    /// Whether this module drives a pump at all.
    pub pump_enabled: bool,
    /// Recurring schedule expression, when the pump is schedule-driven.
    pub pump_schedule: Option<String>,
    /// How long a scheduled run keeps the pump on, in seconds.
    pub pump_duration_secs: u64,
    /// Actuator pin of the pump.
    pub pump_channel: u64,
    /// Below this moisture fraction the pump turns on, in parts per million.
    pub min_moisture: u64,
    /// Above this moisture fraction the pump turns off, in parts per million.
    pub max_moisture: u64,
    /// Initial calibration bounds, from the configured reference voltages.
    pub calibration: CalibrationBounds,
}

impl ModuleConfig {
    /// What validation establishes: the pin is one of the converter's four
    /// inputs, the thresholds are an ordered pair of fractions, the
    /// calibration bounds are well formed, and the schedule expression,
    /// when present, parses.
    pub open spec fn wf(self) -> bool {
        &&& self.moisture_channel <= 3
        &&& self.min_moisture <= self.max_moisture <= crate::calib::MOISTURE_SCALE
        &&& self.calibration.wf()
        &&& (self.pump_schedule matches Some(expr) ==> crate::schedule::cron_valid(expr@))
    }
}

} // verus!
