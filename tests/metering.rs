use sml_bridge::message::{
    extract, register_name, value_text, DecodedMessage, ExtractedUpdate, ListEntry, Value,
};
use sml_bridge::metering::{
    apply_update, handle_logic_update, process_sml_messages, trapezoid_export, update_zaehlerstand,
    SensorData, SideEffects,
};

fn power(p: i32) -> ExtractedUpdate {
    ExtractedUpdate { power: Some(p), counter: None }
}

fn counter(c: u64) -> ExtractedUpdate {
    ExtractedUpdate { power: None, counter: Some(c) }
}

#[test]
fn new_state_is_all_zero() {
    let s = SensorData::new();
    assert_eq!(s.wirkleistung, 0);
    assert_eq!(s.zaehlerstand, 0);
    assert_eq!(s.zaehlerstand_alt, 0);
    assert_eq!(s.zaehlerstand_diff, 0);
    assert_eq!(s.einspeisung, 0);
    assert!(!s.einspeisung_sts);
    assert_eq!(s.last_integration_time, None);
    assert_eq!(s.last_mqtt_publish, None);
}

#[test]
fn first_counter_reading_has_zero_delta() {
    let mut s = SensorData::new();
    update_zaehlerstand(&mut s, 123456);
    assert_eq!(s.zaehlerstand_diff, 0);
    assert_eq!(s.zaehlerstand, 123456);
    assert_eq!(s.zaehlerstand_alt, 123456);
}

#[test]
fn counter_delta_between_readings() {
    let mut s = SensorData::new();
    update_zaehlerstand(&mut s, 1000);
    update_zaehlerstand(&mut s, 1025);
    assert_eq!(s.zaehlerstand_diff, 25);
    assert_eq!(s.zaehlerstand, 1025);
}

#[test]
fn counter_decrease_clamps_delta_at_zero() {
    let mut s = SensorData::new();
    update_zaehlerstand(&mut s, 1000);
    update_zaehlerstand(&mut s, 900);
    assert_eq!(s.zaehlerstand_diff, 0);
    assert_eq!(s.zaehlerstand, 900);
}

#[test]
fn huge_counter_jump_saturates_delta() {
    let mut s = SensorData::new();
    update_zaehlerstand(&mut s, 1);
    update_zaehlerstand(&mut s, u64::MAX);
    assert_eq!(s.zaehlerstand_diff, u32::MAX);
}

#[test]
fn feed_in_hysteresis_sequence() {
    let mut s = SensorData::new();
    let mut changes = Vec::new();
    let mut states = Vec::new();
    for (i, p) in [-600, -600, -200, -50, -600].iter().enumerate() {
        let e = apply_update(&mut s, power(*p), i as u64 * 1000).unwrap();
        changes.push(e.feed_in_change);
        states.push(s.einspeisung_sts);
    }
    assert_eq!(changes, vec![Some(true), None, None, Some(false), Some(true)]);
    assert_eq!(states, vec![true, true, true, false, true]);
}

#[test]
fn dead_band_never_toggles() {
    for start in [false, true] {
        for p in [-500, -400, -200, -100] {
            let mut s = SensorData::new();
            s.einspeisung_sts = start;
            let e = apply_update(&mut s, power(p), 0).unwrap();
            assert_eq!(e.feed_in_change, None);
            assert_eq!(s.einspeisung_sts, start);
        }
    }
}

#[test]
fn trapezoid_two_ticks() {
    let mut s = SensorData::new();
    apply_update(&mut s, power(-1000), 5000).unwrap();
    assert_eq!(s.einspeisung, 0);
    apply_update(&mut s, power(-2000), 6000).unwrap();
    assert_eq!(s.einspeisung, 1_500_000);
}

#[test]
fn trapezoid_half_export() {
    assert_eq!(trapezoid_export(1000, -1000, 10), 5000);
    assert_eq!(trapezoid_export(500, 300, 1000), 0);
    assert_eq!(trapezoid_export(-3, 0, 7), 7);
}

#[test]
fn trapezoid_saturates() {
    assert_eq!(trapezoid_export(i32::MIN, i32::MIN, u64::MAX), u64::MAX);
    let mut s = SensorData::new();
    s.einspeisung = u64::MAX - 1;
    s.wirkleistung = -1000;
    s.wirkleistung_alt = -1000;
    s.last_integration_time = Some(0);
    handle_logic_update(&mut s, 1000);
    assert_eq!(s.einspeisung, u64::MAX);
}

#[test]
fn import_only_accumulates_nothing() {
    let mut s = SensorData::new();
    apply_update(&mut s, power(800), 0).unwrap();
    apply_update(&mut s, power(1200), 5000).unwrap();
    assert_eq!(s.einspeisung, 0);
}

#[test]
fn throttle_first_tick_then_after_interval() {
    let mut s = SensorData::new();
    let mut fired = Vec::new();
    for t in [0u64, 10_000, 30_000, 59_999, 60_000, 60_001, 70_000, 120_001, 120_002] {
        let e = apply_update(&mut s, power(100), t).unwrap();
        fired.push(e.should_publish_throttled);
    }
    assert_eq!(fired, vec![true, false, false, false, false, true, false, false, true]);
    assert_eq!(s.last_mqtt_publish, Some(120_002));
}

#[test]
fn empty_update_is_a_no_op() {
    let mut s = SensorData::new();
    apply_update(&mut s, power(-700), 100).unwrap();
    let before = s;
    let r = apply_update(&mut s, ExtractedUpdate { power: None, counter: None }, 5000);
    assert_eq!(r, None);
    assert_eq!(s, before);
}

#[test]
fn tick_always_persists() {
    let mut s = SensorData::new();
    let e: SideEffects = apply_update(&mut s, counter(5), 0).unwrap();
    assert!(e.should_persist);
    assert_eq!(s.last_integration_time, Some(0));
}

fn entry(code: [u8; 6], value: Value) -> ListEntry {
    ListEntry { obj_name: code.to_vec(), value }
}

#[test]
fn extract_picks_registers() {
    let msg = DecodedMessage {
        entries: vec![
            entry([1, 0, 0, 0, 9, 255], Value::Bytes(vec![1, 2, 3])),
            entry([1, 0, 1, 8, 0, 255], Value::U64(4711)),
            entry([1, 0, 16, 7, 0, 255], Value::I32(-42)),
        ],
    };
    assert_eq!(extract(&msg), ExtractedUpdate { power: Some(-42), counter: Some(4711) });
}

#[test]
fn extract_accepts_i64_variants() {
    let msg = DecodedMessage {
        entries: vec![
            entry([1, 0, 1, 8, 0, 255], Value::I64(99)),
            entry([1, 0, 16, 7, 0, 255], Value::I64(-5500)),
        ],
    };
    assert_eq!(extract(&msg), ExtractedUpdate { power: Some(-5500), counter: Some(99) });
}

#[test]
fn extract_ignores_other_variants_and_codes() {
    let msg = DecodedMessage {
        entries: vec![
            entry([1, 0, 1, 8, 0, 255], Value::I32(5)),
            entry([1, 0, 16, 7, 0, 255], Value::U64(7)),
            entry([1, 0, 36, 7, 0, 255], Value::I32(-42)),
            entry([1, 0, 1, 8, 1, 255], Value::U64(4711)),
            ListEntry { obj_name: vec![1, 0, 16, 7, 0], value: Value::I32(3) },
        ],
    };
    assert_eq!(extract(&msg), ExtractedUpdate { power: None, counter: None });
    let mut s = SensorData::new();
    assert_eq!(process_sml_messages(&mut s, &msg, 0), None);
    assert_eq!(s, SensorData::new());
}

#[test]
fn extract_last_entry_wins() {
    let msg = DecodedMessage {
        entries: vec![
            entry([1, 0, 16, 7, 0, 255], Value::I32(1)),
            entry([1, 0, 16, 7, 0, 255], Value::I32(2)),
            entry([1, 0, 16, 7, 0, 255], Value::Other),
        ],
    };
    assert_eq!(extract(&msg).power, Some(2));
}

#[test]
fn register_names_by_exact_code() {
    assert_eq!(register_name(&[1, 0, 1, 8, 0, 255]), Some("Import total"));
    assert_eq!(register_name(&[1, 0, 16, 7, 0, 255]), Some("Active power"));
    assert_eq!(register_name(&[129, 129, 199, 130, 5, 255]), Some("Public key"));
    assert_eq!(register_name(&[1, 0, 16, 7, 0]), None);
    assert_eq!(register_name(&[1, 0, 16, 7, 0, 255, 0]), None);
    assert_eq!(register_name(&[1, 0, 99, 7, 0, 255]), None);
}

#[test]
fn value_text_renders_values() {
    assert_eq!(value_text(&Value::I32(-5500)), "-5500");
    assert_eq!(value_text(&Value::I64(123456)), "123456");
    assert_eq!(value_text(&Value::I64(i64::MIN)), "-9223372036854775808");
    assert_eq!(value_text(&Value::Bytes(vec![0x0a, 0xff, 0x00])), "0aff00");
    assert_eq!(value_text(&Value::U64(7)), "");
    assert_eq!(value_text(&Value::List), "");
}

#[test]
fn extract_saturates_wide_power() {
    let msg = DecodedMessage { entries: vec![entry([1, 0, 16, 7, 0, 255], Value::I64(-5_000_000_000))] };
    assert_eq!(extract(&msg).power, Some(i32::MIN));
    let msg = DecodedMessage { entries: vec![entry([1, 0, 16, 7, 0, 255], Value::I64(i64::MAX))] };
    assert_eq!(extract(&msg).power, Some(i32::MAX));
}

#[test]
fn extract_ignores_negative_counter() {
    let msg = DecodedMessage {
        entries: vec![
            entry([1, 0, 1, 8, 0, 255], Value::U64(10)),
            entry([1, 0, 1, 8, 0, 255], Value::I64(-1)),
        ],
    };
    assert_eq!(extract(&msg).counter, Some(10));
}
