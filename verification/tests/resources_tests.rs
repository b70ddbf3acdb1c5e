use dawn_host::resources::{
    PowerSupplyEntry, ResourceSnapshot, SensorReading, read_power_state, select_cpu_temp,
    throttled,
};
use dawn_host::feed::tail_lines;
use dawn_host::text::parse_u64;

fn sensor(label: &str, temp_cc: i64) -> SensorReading {
    SensorReading { label: label.as_bytes().to_vec(), temp_cc }
}

fn supply(kind: &str, capacity: &str, online: &str) -> PowerSupplyEntry {
    PowerSupplyEntry {
        kind: kind.as_bytes().to_vec(),
        capacity: capacity.as_bytes().to_vec(),
        online: online.as_bytes().to_vec(),
    }
}

#[test]
fn high_usage_alone_trips_throttling() {
    // CPU usage 75 %, no temperature sensor, no battery information.
    assert!(throttled(7500, None, None, None));
    let s = ResourceSnapshot::new(0, 7500, None, None, None);
    assert!(s.throttled);
}

#[test]
fn high_temperature_alone_trips_throttling() {
    // CPU usage 10 %, temperature 90 °C.
    assert!(throttled(1000, Some(9000), None, None));
    let s = ResourceSnapshot::new(0, 1000, Some(9000), None, None);
    assert!(s.throttled);
}

#[test]
fn low_battery_on_ac_does_not_trip_throttling() {
    // CPU usage 10 %, temperature 40 °C, battery 20 %, on AC power.
    assert!(!throttled(1000, Some(4000), Some(20), Some(true)));
    let s = ResourceSnapshot::new(0, 1000, Some(4000), Some(20), Some(true));
    assert!(!s.throttled);
}

#[test]
fn low_battery_off_ac_trips_throttling() {
    assert!(throttled(1000, None, Some(20), Some(false)));
}

#[test]
fn battery_without_ac_state_does_not_trip_throttling() {
    // Both readings must be present for the battery condition.
    assert!(!throttled(1000, None, Some(5), None));
    assert!(!throttled(1000, None, None, Some(false)));
}

#[test]
fn throttling_thresholds_are_strict() {
    assert!(!throttled(7000, None, None, None));
    assert!(throttled(7001, None, None, None));
    assert!(!throttled(0, Some(8500), None, None));
    assert!(throttled(0, Some(8501), None, None));
    assert!(throttled(0, None, Some(29), Some(false)));
    assert!(!throttled(0, None, Some(30), Some(false)));
}

#[test]
fn first_cpu_labelled_sensor_wins() {
    let sensors = vec![
        sensor("acpitz temp1", 5000),
        sensor("CPU Package", 6100),
        sensor("coretemp cpu core 0", 7200),
    ];
    assert_eq!(select_cpu_temp(&sensors), Some(6100));
}

#[test]
fn cpu_label_match_is_case_insensitive() {
    let sensors = vec![sensor("CoReTeMp CpU", 4321)];
    assert_eq!(select_cpu_temp(&sensors), Some(4321));
}

#[test]
fn no_cpu_sensor_means_no_temperature() {
    let sensors = vec![sensor("acpitz", 5000), sensor("nvme composite", 4000)];
    assert_eq!(select_cpu_temp(&sensors), None);
    let none: Vec<SensorReading> = Vec::new();
    assert_eq!(select_cpu_temp(&none), None);
}

#[test]
fn battery_and_mains_entries_are_read() {
    let entries = vec![
        supply("Battery\n", "85\n", ""),
        supply("Mains\n", "", "1\n"),
    ];
    assert_eq!(read_power_state(&entries), (Some(85), Some(true)));
}

#[test]
fn ac_kind_counts_as_mains_and_zero_is_offline() {
    let entries = vec![supply("AC", "", "0")];
    assert_eq!(read_power_state(&entries), (None, Some(false)));
}

#[test]
fn unparsable_values_are_passed_over() {
    let entries = vec![
        supply("Battery", "eighty", ""),
        supply("Mains", "", "yes"),
        supply("USB", "50", "1"),
    ];
    assert_eq!(read_power_state(&entries), (None, None));
}

#[test]
fn later_entries_override_earlier_ones() {
    let entries = vec![
        supply("Battery", "10", ""),
        supply("Battery", "90", ""),
        supply("Battery", "bad", ""),
    ];
    // The last battery whose capacity parsed wins.
    assert_eq!(read_power_state(&entries), (Some(90), None));
}

#[test]
fn no_power_supply_entries_yield_absent_values() {
    let entries: Vec<PowerSupplyEntry> = Vec::new();
    assert_eq!(read_power_state(&entries), (None, None));
}

#[test]
fn parse_u64_accepts_digits_only() {
    assert_eq!(parse_u64(b"0"), Some(0));
    assert_eq!(parse_u64(b"100"), Some(100));
    assert_eq!(parse_u64(b""), None);
    assert_eq!(parse_u64(b"12x"), None);
    assert_eq!(parse_u64(b"-5"), None);
    assert_eq!(parse_u64(b"18446744073709551615"), Some(u64::MAX));
    assert_eq!(parse_u64(b"18446744073709551616"), None);
}

#[test]
fn feed_keeps_only_the_most_recent_lines() {
    let lines: Vec<String> = vec!["a".into(), "b".into(), "c".into(), "d".into()];
    assert_eq!(tail_lines(&lines, 2), vec!["c".to_string(), "d".to_string()]);
    assert_eq!(tail_lines(&lines, 4), lines);
    assert_eq!(tail_lines(&lines, 10), lines);
    assert_eq!(tail_lines(&lines, 0), Vec::<String>::new());
}
