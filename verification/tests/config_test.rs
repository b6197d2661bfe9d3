use precip::config::{module_config_new, parse_moisture_channel, MoistureChannel, PumpSchedule};
use precip::errors::ConfigError;
use precip::model::ModuleId;
use precip::schedule::next_run;

#[test]
fn parses_channel_text() {
    let mc = parse_moisture_channel("e8-3").unwrap();
    assert_eq!(mc, MoistureChannel { i2c_address: 0xe8, analog_pin: 3 });
}

#[test]
fn parses_uppercase_hex_and_limits() {
    assert_eq!(
        parse_moisture_channel("E8-3").unwrap(),
        MoistureChannel { i2c_address: 0xe8, analog_pin: 3 }
    );
    assert_eq!(
        parse_moisture_channel("ffff-255").unwrap(),
        MoistureChannel { i2c_address: 0xffff, analog_pin: 255 }
    );
    assert_eq!(
        parse_moisture_channel("0-0").unwrap(),
        MoistureChannel { i2c_address: 0, analog_pin: 0 }
    );
}

#[test]
fn rejects_malformed_channel_text() {
    for bad in [
        "", "e8", "e8-", "-3", "e8-3-4", "g8-3", "e8-x", "e8-3a", "e 8-3",
        "10000-3", "e8-256", "e8-999999999999", "ffffffffff-1",
    ] {
        assert_eq!(
            parse_moisture_channel(bad),
            Err(ConfigError::InvalidChannelSpec),
            "{bad:?} should be rejected"
        );
    }
}

fn build(
    channel: MoistureChannel,
    schedule: Option<PumpSchedule>,
    min: u64,
    max: u64,
    wet: u64,
    dry: u64,
) -> Result<precip::model::ModuleConfig, ConfigError> {
    module_config_new(
        ModuleId { hi: 1, lo: 2 },
        "plant".to_owned(),
        "a plant".to_owned(),
        channel,
        true,
        schedule,
        17,
        min,
        max,
        wet,
        dry,
    )
}

#[test]
fn validates_module_configuration() {
    let ok = build(
        MoistureChannel { i2c_address: 0x48, analog_pin: 2 },
        None,
        300_000,
        600_000,
        1_000_000,
        2_000_000,
    )
    .unwrap();
    assert_eq!(ok.moisture_channel, 2);
    assert_eq!(ok.min_moisture, 300_000);
    assert!(ok.pump_schedule.is_none());
    assert_eq!(ok.pump_duration_secs, 0);
}

#[test]
fn rejects_unknown_pin() {
    let r = build(
        MoistureChannel { i2c_address: 0x48, analog_pin: 4 },
        None,
        0,
        0,
        0,
        0,
    );
    assert_eq!(r.unwrap_err(), ConfigError::UnknownChannel { pin: 4 });
}

#[test]
fn rejects_disordered_thresholds() {
    let r = build(
        MoistureChannel { i2c_address: 0x48, analog_pin: 0 },
        None,
        700_000,
        300_000,
        0,
        0,
    );
    assert_eq!(r.unwrap_err(), ConfigError::InvalidThresholds);
}

#[test]
fn rejects_disordered_calibration() {
    let r = build(
        MoistureChannel { i2c_address: 0x48, analog_pin: 0 },
        None,
        300_000,
        600_000,
        2_000_000,
        1_000_000,
    );
    assert_eq!(r.unwrap_err(), ConfigError::InvalidCalibration);
}

#[test]
fn rejects_invalid_schedule_expression() {
    let r = build(
        MoistureChannel { i2c_address: 0x48, analog_pin: 0 },
        Some(PumpSchedule { start: "not a schedule".to_owned(), duration_seconds: 60 }),
        300_000,
        600_000,
        1_000_000,
        2_000_000,
    );
    assert_eq!(r.unwrap_err(), ConfigError::InvalidSchedule);
}

#[test]
fn plans_the_next_scheduled_run() {
    // Every hour on the hour; after the epoch the next run is at 01:00:00.
    let cfg = build(
        MoistureChannel { i2c_address: 0x48, analog_pin: 0 },
        Some(PumpSchedule { start: "0 0 * * * *".to_owned(), duration_seconds: 60 }),
        300_000,
        600_000,
        1_000_000,
        2_000_000,
    )
    .unwrap();
    let run = next_run(&cfg, 0).unwrap();
    assert_eq!(run.start, 3600);
    assert_eq!(run.stop, 3660);

    let next = next_run(&cfg, run.start).unwrap();
    assert_eq!(next.start, 7200);
}

#[test]
fn no_schedule_plans_no_run() {
    let cfg = build(
        MoistureChannel { i2c_address: 0x48, analog_pin: 0 },
        None,
        300_000,
        600_000,
        1_000_000,
        2_000_000,
    )
    .unwrap();
    assert!(next_run(&cfg, 0).is_none());
}
