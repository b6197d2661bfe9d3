//! The per-tick control decision of one threshold-driven module.
//!
//! On each tick the control loop widens the module's calibration by the new
//! raw reading, normalizes the reading into a moisture fraction, and applies
//! hysteresis against the module's two thresholds: off below the lower one
//! the pump turns on, on above the upper one it turns off. Two thresholds,
//! not one, so the pump does not chatter near a single boundary value.

use vstd::prelude::*;
use crate::calib::{CalibrationBounds, MAX_RAW};
use crate::model::{ModuleId, PumpEvent};

verus! {

/// The commanded state of a module's pump actuator.
#[derive(Clone, Copy, Debug, PartialEq, Eq, Structural)]
pub enum ActuatorState {
    /// The pump is off.
    Off,
    /// The pump is on.
    On,
}

/// The hysteresis rule: off below `min_moisture` turns on, on above
/// `max_moisture` turns off, anything else keeps the state.
pub open spec fn hysteresis_next(
    state: ActuatorState,
    moisture: u64,
    min_moisture: u64,
    max_moisture: u64,
) -> ActuatorState {
    match state {
        ActuatorState::Off => if moisture < min_moisture {
            ActuatorState::On
        } else {
            ActuatorState::Off
        },
        ActuatorState::On => if moisture > max_moisture {
            ActuatorState::Off
        } else {
            ActuatorState::On
        },
    }
}

/// Apply the hysteresis rule to one normalized moisture value.
pub fn hysteresis_step(
    state: ActuatorState,
    moisture: u64,
    min_moisture: u64,
    max_moisture: u64,
) -> (r: ActuatorState)
    ensures
        r == hysteresis_next(state, moisture, min_moisture, max_moisture),
{
    match state {
        ActuatorState::Off => if moisture < min_moisture {
            ActuatorState::On
        } else {
            ActuatorState::Off
        },
        ActuatorState::On => if moisture > max_moisture {
            ActuatorState::Off
        } else {
            ActuatorState::On
        },
    }
}

/// What one control tick decided.
#[derive(Clone, Copy, Debug, PartialEq, Eq, Structural)]
pub struct TickOutcome {
    /// The normalized moisture of this tick, in parts per million.
    pub moisture: u64,
    /// The pump state after the hysteresis rule.
    pub state: ActuatorState,
    /// The transition to record and command, when the state changed.
    pub event: Option<PumpEvent>,
}

/// One tick of a module's control loop, from a raw sample to a decision:
/// widen the calibration, normalize the reading, apply hysteresis, and
/// produce the transition event exactly when the commanded state changes.
/// The caller commands the actuator and persists the sample and the event.
pub fn control_tick(
    module: ModuleId,
    min_moisture: u64,
    max_moisture: u64,
    cal: &mut CalibrationBounds,
    state: ActuatorState,
    raw: u64,
    now: i64,
) -> (r: TickOutcome)
    requires
        old(cal).wf(),
        raw <= MAX_RAW,
    ensures
        *final(cal) == old(cal).widened(raw),
        r.moisture == old(cal).widened(raw).moisture_ppm(raw),
        r.moisture <= crate::calib::MOISTURE_SCALE,
        r.state == hysteresis_next(state, r.moisture, min_moisture, max_moisture),
        r.event == (if r.state != state {
            Some(PumpEvent { module, at: now, running: r.state is On })
        } else {
            None::<PumpEvent>
        }),
{
    cal.observe(raw);
    let moisture = cal.moisture(raw);
    let next = hysteresis_step(state, moisture, min_moisture, max_moisture);
    let event = if next != state {
        Some(PumpEvent { module, at: now, running: matches!(next, ActuatorState::On) })
    } else {
        None
    };
    TickOutcome { moisture, state: next, event }
}

} // verus!
