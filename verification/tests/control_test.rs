use precip::calib::{CalibrationBounds, MOISTURE_SCALE};
use precip::control::{control_tick, hysteresis_step, ActuatorState};
use precip::model::ModuleId;

#[test]
fn hysteresis_scenario() {
    // Thresholds 0.3 and 0.6; moisture runs 0.5, 0.25, 0.4, 0.7, 0.5.
    let min: u64 = 300_000;
    let max: u64 = 600_000;
    let sequence: [u64; 5] = [500_000, 250_000, 400_000, 700_000, 500_000];
    let expected = [
        ActuatorState::Off,
        ActuatorState::On,
        ActuatorState::On,
        ActuatorState::Off,
        ActuatorState::Off,
    ];
    let mut state = ActuatorState::Off;
    for (moisture, want) in sequence.iter().zip(expected.iter()) {
        state = hysteresis_step(state, *moisture, min, max);
        assert_eq!(state, *want);
    }
}

#[test]
fn calibration_widening_is_monotonic() {
    // Raw readings 2.0, 1.5, 2.5, 1.8 volts against initial bounds (2.0, 2.0).
    let mut bounds = CalibrationBounds::new(2_000_000);
    let raws: Vec<u64> = vec![2_000_000, 1_500_000, 2_500_000, 1_800_000];
    let mut wets = Vec::new();
    let mut drys = Vec::new();
    for raw in &raws {
        bounds.observe(*raw);
        wets.push(bounds.wet);
        drys.push(bounds.dry);
    }
    assert_eq!(bounds, CalibrationBounds { wet: 1_500_000, dry: 2_500_000 });
    for w in wets.windows(2) {
        assert!(w[1] <= w[0]);
    }
    for d in drys.windows(2) {
        assert!(d[1] >= d[0]);
    }
}

#[test]
fn observe_all_matches_stepwise_observation() {
    let mut all_at_once = CalibrationBounds::new(2_000_000);
    all_at_once.observe_all(&vec![2_000_000, 1_500_000, 2_500_000, 1_800_000]);
    assert_eq!(all_at_once, CalibrationBounds { wet: 1_500_000, dry: 2_500_000 });
}

#[test]
fn moisture_normalization_exact() {
    let bounds = CalibrationBounds { wet: 1_000_000, dry: 2_000_000 };
    // 1 - (1.75 - 1.0) / (2.0 - 1.0) = 0.25
    assert_eq!(bounds.moisture(1_750_000), 250_000);
    assert_eq!(bounds.moisture(1_000_000), MOISTURE_SCALE);
    assert_eq!(bounds.moisture(2_000_000), 0);
}

#[test]
fn equal_bounds_count_as_fully_wet() {
    let bounds = CalibrationBounds { wet: 2_000_000, dry: 2_000_000 };
    assert_eq!(bounds.moisture(2_000_000), MOISTURE_SCALE);
}

#[test]
fn control_tick_turns_pump_on_below_threshold() {
    let module = ModuleId { hi: 7, lo: 9 };
    let mut cal = CalibrationBounds { wet: 1_000_000, dry: 2_000_000 };
    // A bone-dry reading at the dry bound: moisture 0, below min 0.3.
    let outcome = control_tick(module, 300_000, 600_000, &mut cal, ActuatorState::Off, 2_000_000, 42);
    assert_eq!(outcome.moisture, 0);
    assert_eq!(outcome.state, ActuatorState::On);
    let event = outcome.event.expect("a transition event");
    assert_eq!(event.module, module);
    assert_eq!(event.at, 42);
    assert!(event.running);
}

#[test]
fn control_tick_without_transition_emits_no_event() {
    let module = ModuleId { hi: 7, lo: 9 };
    let mut cal = CalibrationBounds { wet: 1_000_000, dry: 2_000_000 };
    // A fully wet reading keeps an off pump off.
    let outcome = control_tick(module, 300_000, 600_000, &mut cal, ActuatorState::Off, 1_000_000, 43);
    assert_eq!(outcome.moisture, MOISTURE_SCALE);
    assert_eq!(outcome.state, ActuatorState::Off);
    assert!(outcome.event.is_none());
}

#[test]
fn control_tick_widens_calibration_first() {
    let module = ModuleId { hi: 7, lo: 9 };
    let mut cal = CalibrationBounds { wet: 2_000_000, dry: 2_000_000 };
    // A reading outside the bounds widens them before normalizing.
    let outcome = control_tick(module, 300_000, 600_000, &mut cal, ActuatorState::Off, 2_500_000, 44);
    assert_eq!(cal, CalibrationBounds { wet: 2_000_000, dry: 2_500_000 });
    assert_eq!(outcome.moisture, 0);
    assert_eq!(outcome.state, ActuatorState::On);
}
