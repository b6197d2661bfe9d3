use precip::calib::CalibrationBounds;
use precip::intervals::RunningInterval;
use precip::model::{ModuleConfig, ModuleId, PumpEvent, SampleTimeseries, Stats};
use precip::snapshot::State;

fn config(id: ModuleId, name: &str, min: u64, max: u64) -> ModuleConfig {
    ModuleConfig {
        id,
        name: name.to_owned(),
        description: String::new(),
        moisture_i2c_address: 0x48,
        moisture_channel: 0,
        pump_enabled: true,
        pump_schedule: None,
        pump_duration_secs: 0,
        pump_channel: 17,
        min_moisture: min,
        max_moisture: max,
        calibration: CalibrationBounds { wet: 1_000_000, dry: 2_000_000 },
    }
}

#[test]
fn end_to_end_snapshot_for_one_module() {
    // Module A, threshold min 0.3; pump on at t1, off at t5; snapshot at t10.
    let a = ModuleId { hi: 1, lo: 2 };
    let modules = vec![config(a, "A", 300_000, 600_000)];
    let events = vec![
        PumpEvent { module: a, at: 1, running: true },
        PumpEvent { module: a, at: 5, running: false },
    ];
    let (state, discarded) = State::new(10, &modules, &Vec::new(), &events, &Vec::new());
    assert_eq!(state.created, 10);
    assert_eq!(discarded, vec![0]);
    assert_eq!(state.modules.len(), 1);
    let m = &state.modules[0];
    assert_eq!(m.pump_running, vec![RunningInterval { start: 1, end: 5 }]);
    assert!(!m.running);
    assert_eq!(m.name, "A");
    assert_eq!(m.target_min_moisture, 300_000);
    assert_eq!(m.target_max_moisture, 600_000);
    assert!(!m.force_running);
}

#[test]
fn module_id_is_published_hyphenated() {
    let id = ModuleId { hi: 0xa1a2a3a4b1b2c1c2, lo: 0xd1d2d3d4d5d6d7d8 };
    let modules = vec![config(id, "hex", 0, 0)];
    let (state, _) = State::new(0, &modules, &Vec::new(), &Vec::new(), &Vec::new());
    assert_eq!(state.modules[0].id, "a1a2a3a4-b1b2-c1c2-d1d2-d3d4d5d6d7d8");
}

#[test]
fn module_without_data_appears_with_defaults() {
    let a = ModuleId { hi: 3, lo: 4 };
    let modules = vec![config(a, "bare", 100_000, 200_000)];
    let (state, discarded) = State::new(99, &modules, &Vec::new(), &Vec::new(), &Vec::new());
    let m = &state.modules[0];
    assert_eq!(discarded, vec![0]);
    assert!(!m.running);
    assert!(m.pump_running.is_empty());
    assert!(m.moisture_timeseries.measurement_start.is_empty());
    assert_eq!(m.min_moisture, 0);
    assert_eq!(m.max_moisture, 0);
    assert_eq!(m.last_moisture, 0);
}

#[test]
fn still_running_module_is_flagged_and_closed_at_now() {
    let a = ModuleId { hi: 5, lo: 6 };
    let modules = vec![config(a, "wet", 0, 0)];
    let events = vec![PumpEvent { module: a, at: 7, running: true }];
    let (state, _) = State::new(12, &modules, &Vec::new(), &events, &Vec::new());
    let m = &state.modules[0];
    assert!(m.running);
    assert_eq!(m.pump_running, vec![RunningInterval { start: 7, end: 12 }]);
}

#[test]
fn series_stats_and_events_are_kept_per_module() {
    let a = ModuleId { hi: 10, lo: 1 };
    let b = ModuleId { hi: 10, lo: 2 };
    let modules = vec![config(a, "a", 0, 0), config(b, "b", 0, 0)];
    let samples = vec![
        SampleTimeseries {
            module: a,
            slice: 100,
            min_moisture: 1,
            max_moisture: 5,
            p25_moisture: 2,
            p50_moisture: 3,
            p75_moisture: 4,
        },
        SampleTimeseries {
            module: b,
            slice: 200,
            min_moisture: 6,
            max_moisture: 9,
            p25_moisture: 7,
            p50_moisture: 8,
            p75_moisture: 9,
        },
        SampleTimeseries {
            module: a,
            slice: 160,
            min_moisture: 11,
            max_moisture: 15,
            p25_moisture: 12,
            p50_moisture: 13,
            p75_moisture: 14,
        },
    ];
    let events = vec![
        PumpEvent { module: b, at: 2, running: true },
        PumpEvent { module: a, at: 3, running: true },
        PumpEvent { module: b, at: 4, running: false },
        PumpEvent { module: a, at: 6, running: false },
    ];
    let stats = vec![
        Stats { module: a, min_moisture: 10, max_moisture: 90, last_moisture: 50 },
        Stats { module: a, min_moisture: 20, max_moisture: 80, last_moisture: 60 },
    ];
    let (state, discarded) = State::new(50, &modules, &samples, &events, &stats);
    assert_eq!(discarded, vec![0, 0]);
    let ma = &state.modules[0];
    let mb = &state.modules[1];

    assert_eq!(ma.moisture_timeseries.measurement_start, vec![100, 160]);
    assert_eq!(ma.moisture_timeseries.min, vec![1, 11]);
    assert_eq!(ma.moisture_timeseries.max, vec![5, 15]);
    assert_eq!(ma.moisture_timeseries.p25, vec![2, 12]);
    assert_eq!(ma.moisture_timeseries.p50, vec![3, 13]);
    assert_eq!(ma.moisture_timeseries.p75, vec![4, 14]);
    assert_eq!(mb.moisture_timeseries.measurement_start, vec![200]);

    assert_eq!(ma.pump_running, vec![RunningInterval { start: 3, end: 6 }]);
    assert_eq!(mb.pump_running, vec![RunningInterval { start: 2, end: 4 }]);

    // The later summary entry wins.
    assert_eq!(ma.min_moisture, 20);
    assert_eq!(ma.max_moisture, 80);
    assert_eq!(ma.last_moisture, 60);
    assert_eq!(mb.min_moisture, 0);
}

#[test]
fn inconsistent_stops_are_counted_per_module() {
    let a = ModuleId { hi: 20, lo: 1 };
    let b = ModuleId { hi: 20, lo: 2 };
    let modules = vec![config(a, "a", 0, 0), config(b, "b", 0, 0)];
    // Module a: a stop with no start, then a matched pair. Module b: clean.
    let events = vec![
        PumpEvent { module: a, at: 1, running: false },
        PumpEvent { module: b, at: 2, running: true },
        PumpEvent { module: a, at: 3, running: true },
        PumpEvent { module: b, at: 4, running: false },
        PumpEvent { module: a, at: 5, running: false },
    ];
    let (state, discarded) = State::new(9, &modules, &Vec::new(), &events, &Vec::new());
    assert_eq!(discarded, vec![1, 0]);
    assert_eq!(state.modules[0].pump_running, vec![RunningInterval { start: 3, end: 5 }]);
    assert_eq!(state.modules[1].pump_running, vec![RunningInterval { start: 2, end: 4 }]);
}
