//! The measurements the controller writes to the time-series store.
//!
//! Each write is one measurement: a series name, a nanosecond timestamp, an
//! optional module tag, and named fields. The store client at the edge
//! turns these plain values into its own wire form.

use vstd::prelude::*;
use crate::ident::{hyphenated, hyphenated_id};
use crate::model::ModuleId;

verus! {

/// One field value of a measurement.
#[derive(Clone, Copy, Debug, PartialEq, Eq, Structural)]
pub enum FieldValue {
    /// A fixed-point number, scaled by the field's documented unit.
    Scaled(i64),
    /// A boolean flag.
    Flag(bool),
}

/// One named field of a measurement.
#[derive(Clone, Debug)]
pub struct MeasurementField {
    /// The field's name in the store.
    pub name: String,
    /// The field's value.
    pub value: FieldValue,
}

/// One record for the time-series store.
#[derive(Clone, Debug)]
pub struct Measurement {
    /// The series written into.
    pub series: String,
    /// When the sample was taken, in epoch nanoseconds.
    pub timestamp_ns: i64,
    /// The hyphenated module identifier, on per-module series.
    pub uuid_tag: Option<String>,
    /// The named field values.
    pub fields: Vec<MeasurementField>,
}

/// Greatest epoch-second magnitude whose nanosecond form fits the store's
/// 64-bit timestamps.
pub const MAX_EPOCH_SECS: i64 = 9_000_000_000;

/// A store timestamp: whole seconds and the fraction, as nanoseconds.
pub fn influx_timestamp_ns(secs: i64, subsec_nanos: u32) -> (r: i64)
    requires
        -MAX_EPOCH_SECS <= secs <= MAX_EPOCH_SECS,
        subsec_nanos < 1_000_000_000,
    ensures
        r == secs * 1_000_000_000 + subsec_nanos,
{
    secs * 1_000_000_000 + subsec_nanos as i64
}

/// The site-wide climate record: ambient temperature in thousandths of a
/// degree Celsius and pressure in thousandths of a kilopascal.
pub fn global_measurement(
    secs: i64,
    subsec_nanos: u32,
    temperature_milli: i64,
    pressure_milli: i64,
) -> (r: Measurement)
    requires
        -MAX_EPOCH_SECS <= secs <= MAX_EPOCH_SECS,
        subsec_nanos < 1_000_000_000,
    ensures
        r.series@ == "global"@,
        r.timestamp_ns == secs * 1_000_000_000 + subsec_nanos,
        r.uuid_tag is None,
        r.fields@.len() == 2,
        r.fields@[0].name@ == "temperature"@,
        r.fields@[0].value == FieldValue::Scaled(temperature_milli),
        r.fields@[1].name@ == "pressure"@,
        r.fields@[1].value == FieldValue::Scaled(pressure_milli),
{
    let mut fields: Vec<MeasurementField> = Vec::new();
    fields.push(
        MeasurementField { name: "temperature".to_owned(), value: FieldValue::Scaled(temperature_milli) },
    );
    fields.push(
        MeasurementField { name: "pressure".to_owned(), value: FieldValue::Scaled(pressure_milli) },
    );
    Measurement {
        series: "global".to_owned(),
        timestamp_ns: influx_timestamp_ns(secs, subsec_nanos),
        uuid_tag: None,
        fields,
    }
}

/// One module's moisture record: the raw reading, in microvolts, tagged
/// with the module's identifier.
pub fn plant_measurement(secs: i64, subsec_nanos: u32, module: ModuleId, moisture_micro: i64) -> (r:
    Measurement)
    requires
        -MAX_EPOCH_SECS <= secs <= MAX_EPOCH_SECS,
        subsec_nanos < 1_000_000_000,
    ensures
        r.series@ == "plant"@,
        r.timestamp_ns == secs * 1_000_000_000 + subsec_nanos,
        r.uuid_tag is Some && r.uuid_tag->Some_0@ == hyphenated_id(module),
        r.fields@.len() == 1,
        r.fields@[0].name@ == "moisture"@,
        r.fields@[0].value == FieldValue::Scaled(moisture_micro),
{
    let mut fields: Vec<MeasurementField> = Vec::new();
    fields.push(
        MeasurementField { name: "moisture".to_owned(), value: FieldValue::Scaled(moisture_micro) },
    );
    Measurement {
        series: "plant".to_owned(),
        timestamp_ns: influx_timestamp_ns(secs, subsec_nanos),
        uuid_tag: Some(hyphenated(module)),
        fields,
    }
}

/// One module's pump transition record, tagged with the module's
/// identifier.
pub fn pump_measurement(secs: i64, subsec_nanos: u32, module: ModuleId, running: bool) -> (r:
    Measurement)
    requires
        -MAX_EPOCH_SECS <= secs <= MAX_EPOCH_SECS,
        subsec_nanos < 1_000_000_000,
    ensures
        r.series@ == "pump"@,
        r.timestamp_ns == secs * 1_000_000_000 + subsec_nanos,
        r.uuid_tag is Some && r.uuid_tag->Some_0@ == hyphenated_id(module),
        r.fields@.len() == 1,
        r.fields@[0].name@ == "running"@,
        r.fields@[0].value == FieldValue::Flag(running),
{
    let mut fields: Vec<MeasurementField> = Vec::new();
    fields.push(
        MeasurementField { name: "running".to_owned(), value: FieldValue::Flag(running) },
    );
    Measurement {
        series: "pump".to_owned(),
        timestamp_ns: influx_timestamp_ns(secs, subsec_nanos),
        uuid_tag: Some(hyphenated(module)),
        fields,
    }
}

} // verus!
