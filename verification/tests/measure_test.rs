use precip::measure::{
    global_measurement, influx_timestamp_ns, plant_measurement, pump_measurement, FieldValue,
};
use precip::model::ModuleId;

#[test]
fn timestamp_in_nanoseconds() {
    assert_eq!(influx_timestamp_ns(1, 5), 1_000_000_005);
    assert_eq!(influx_timestamp_ns(0, 0), 0);
    assert_eq!(influx_timestamp_ns(-2, 500_000_000), -1_500_000_000);
}

#[test]
fn global_measurement_fields() {
    let m = global_measurement(100, 7, 21_500, 101_300);
    assert_eq!(m.series, "global");
    assert_eq!(m.timestamp_ns, 100_000_000_007);
    assert!(m.uuid_tag.is_none());
    assert_eq!(m.fields.len(), 2);
    assert_eq!(m.fields[0].name, "temperature");
    assert_eq!(m.fields[0].value, FieldValue::Scaled(21_500));
    assert_eq!(m.fields[1].name, "pressure");
    assert_eq!(m.fields[1].value, FieldValue::Scaled(101_300));
}

#[test]
fn plant_measurement_is_tagged_with_the_module() {
    let id = ModuleId { hi: 0xa1a2a3a4b1b2c1c2, lo: 0xd1d2d3d4d5d6d7d8 };
    let m = plant_measurement(7, 0, id, 1_750_000);
    assert_eq!(m.series, "plant");
    assert_eq!(m.timestamp_ns, 7_000_000_000);
    assert_eq!(
        m.uuid_tag.as_deref(),
        Some("a1a2a3a4-b1b2-c1c2-d1d2-d3d4d5d6d7d8")
    );
    assert_eq!(m.fields.len(), 1);
    assert_eq!(m.fields[0].name, "moisture");
    assert_eq!(m.fields[0].value, FieldValue::Scaled(1_750_000));
}

#[test]
fn pump_measurement_carries_the_flag() {
    let id = ModuleId { hi: 0, lo: 1 };
    let m = pump_measurement(8, 1, id, true);
    assert_eq!(m.series, "pump");
    assert_eq!(m.timestamp_ns, 8_000_000_001);
    assert_eq!(
        m.uuid_tag.as_deref(),
        Some("00000000-0000-0000-0000-000000000001")
    );
    assert_eq!(m.fields[0].name, "running");
    assert_eq!(m.fields[0].value, FieldValue::Flag(true));
}
