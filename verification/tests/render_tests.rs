use dawn_host::render::render_snapshot;
use dawn_host::resources::ResourceSnapshot;

#[test]
fn full_snapshot_renders_exactly() {
    let s = ResourceSnapshot::new(1700000000, 2525, Some(4050), Some(20), Some(true));
    assert_eq!(
        render_snapshot(&s),
        "{\"timestamp\":1700000000,\"cpu_usage_pct\":25.25,\"cpu_temp_c\":40.50,\
         \"battery_pct\":20,\"on_ac_power\":true,\"throttled\":false}"
    );
}

#[test]
fn absent_readings_render_as_null() {
    let s = ResourceSnapshot::new(0, 7500, None, None, None);
    assert_eq!(
        render_snapshot(&s),
        "{\"timestamp\":0,\"cpu_usage_pct\":75.00,\"cpu_temp_c\":null,\
         \"battery_pct\":null,\"on_ac_power\":null,\"throttled\":true}"
    );
}

#[test]
fn negative_readings_render_with_sign() {
    let s = ResourceSnapshot::new(-5, 5, Some(-550), Some(100), Some(false));
    assert_eq!(
        render_snapshot(&s),
        "{\"timestamp\":-5,\"cpu_usage_pct\":0.05,\"cpu_temp_c\":-5.50,\
         \"battery_pct\":100,\"on_ac_power\":false,\"throttled\":false}"
    );
}

#[test]
fn extreme_values_render_exactly() {
    let s = ResourceSnapshot::new(i64::MIN, u64::MAX, Some(i64::MIN), Some(u64::MAX), None);
    assert_eq!(
        render_snapshot(&s),
        "{\"timestamp\":-9223372036854775808,\
         \"cpu_usage_pct\":184467440737095516.15,\
         \"cpu_temp_c\":-92233720368547758.08,\
         \"battery_pct\":18446744073709551615,\
         \"on_ac_power\":null,\"throttled\":true}"
    );
}

#[test]
fn rendered_snapshot_is_valid_json_with_the_declared_fields() {
    let s = ResourceSnapshot::new(1700000000, 2525, Some(4050), Some(20), Some(true));
    let text = render_snapshot(&s);
    let v: serde_json::Value = serde_json::from_str(&text).unwrap();
    assert_eq!(v["timestamp"].as_i64(), Some(1700000000));
    assert_eq!(v["cpu_usage_pct"].as_f64(), Some(25.25));
    assert_eq!(v["cpu_temp_c"].as_f64(), Some(40.5));
    assert_eq!(v["battery_pct"].as_u64(), Some(20));
    assert_eq!(v["on_ac_power"].as_bool(), Some(true));
    assert_eq!(v["throttled"].as_bool(), Some(false));
}

#[test]
fn null_fields_parse_as_json_null() {
    let s = ResourceSnapshot::new(1, 100, None, None, None);
    let text = render_snapshot(&s);
    let v: serde_json::Value = serde_json::from_str(&text).unwrap();
    assert!(v["cpu_temp_c"].is_null());
    assert!(v["battery_pct"].is_null());
    assert!(v["on_ac_power"].is_null());
    assert_eq!(v["throttled"].as_bool(), Some(false));
}
