//! Error taxonomy of the controller core.
//!
//! Per-tick failures (sensor, actuator, storage, publication) are caught at
//! the loop boundary by the caller and never stop the process; only
//! configuration errors are fatal, at startup.

use vstd::prelude::*;

verus! {

/// A sample request could not be served: the bus address is not one of the
/// known converter devices, or the device read itself failed.
#[derive(Clone, Copy, Debug, PartialEq, Eq, Structural)]
pub enum SensorIoError {
    /// No converter device with this bus address is owned by the bus actor.
    UnknownAddress { address: u16 },
    /// The device read failed at the hardware boundary.
    DeviceIo,
}

/// Invalid configuration, detected before any worker starts; fatal.
#[derive(Clone, Copy, Debug, PartialEq, Eq, Structural)]
pub enum ConfigError {
    /// The sensor channel text is not hexadecimal address, dash, decimal pin.
    InvalidChannelSpec,
    /// The analog pin is not one of the four converter inputs.
    UnknownChannel { pin: u8 },
    /// The recurring schedule expression does not parse.
    InvalidSchedule,
    /// The wet reference bound exceeds the dry one, or a bound is out of range.
    InvalidCalibration,
    /// The moisture thresholds are not an ordered pair of fractions.
    InvalidThresholds,
}

} // verus!
