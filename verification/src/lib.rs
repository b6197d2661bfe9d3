//! Verified core of an unattended plant-irrigation controller.
//!
//! The controller samples soil-moisture and ambient-climate sensors,
//! drives water pumps from thresholds or a recurring schedule, persists
//! every reading and actuation event, and periodically publishes an
//! aggregated snapshot of all modules' state.
//!
//! This crate holds the decisions of that pipeline, each with a proved
//! contract: serialized access to the shared sensor bus (`bus`),
//! calibration of raw readings (`calib`), the per-tick hysteresis rule
//! (`control`), the scheduled runs (`schedule`), the reconstruction of
//! continuous pump-running intervals from the event log (`intervals`),
//! the snapshot itself (`snapshot`), the records written to and read from
//! storage (`measure`, `storage`), and the publication hand-off
//! (`publish`). Hardware, persistence and the publication sink exchange
//! plain values with these functions from an ordinary shell around the
//! crate.

pub mod bus;
pub mod calib;
pub mod config;
pub mod control;
pub mod errors;
pub mod ident;
pub mod intervals;
pub mod measure;
pub mod model;
pub mod publish;
pub mod schedule;
pub mod snapshot;
pub mod storage;
