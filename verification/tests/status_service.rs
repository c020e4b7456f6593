use voike_agent::status::{
    build_status, classify_sleep_state, sampled_status, startup_status, status_json,
    wasm_loaded_flag, SleepState, StatusSlot,
};

#[test]
fn sleep_state_thresholds_are_boundary_inclusive() {
    assert_eq!(classify_sleep_state(0), SleepState::Idle);
    assert_eq!(classify_sleep_state(499), SleepState::Idle);
    assert_eq!(classify_sleep_state(500), SleepState::Warm);
    assert_eq!(classify_sleep_state(3999), SleepState::Warm);
    assert_eq!(classify_sleep_state(4000), SleepState::Active);
    assert_eq!(classify_sleep_state(10000), SleepState::Active);
}

#[test]
fn module_preload_flag_needs_path_and_success() {
    assert!(!wasm_loaded_flag(false, false));
    assert!(!wasm_loaded_flag(false, true));
    assert!(!wasm_loaded_flag(true, false));
    assert!(wasm_loaded_flag(true, true));
}

#[test]
fn startup_snapshot_is_zeroed_with_no_module() {
    let status = startup_status(false, None);
    assert_eq!(status.cpu_centi_percent, 0);
    assert_eq!(status.rss_centi_mb, 0);
    assert!(status.uptime_seconds <= 1);
    assert_eq!(status.sleep_state, SleepState::Idle);
    assert!(status.tickless);
    assert!(!status.wasm_loaded);
    assert_eq!(status.wasm_module, None);
    assert_eq!(status.timestamp, "");
}

#[test]
fn slot_read_returns_the_whole_stored_snapshot() {
    let mut slot = StatusSlot::new(startup_status(false, None));
    let stored = build_status(
        1234,
        51200,
        7,
        true,
        Some("/opt/agent/mod.wasm".to_string()),
        "2026-01-01T00:00:00+00:00".to_string(),
    );
    slot.store(stored);
    let got = slot.read();
    assert_eq!(got.cpu_centi_percent, 1234);
    assert_eq!(got.rss_centi_mb, 51200);
    assert_eq!(got.uptime_seconds, 7);
    assert_eq!(got.sleep_state, SleepState::Warm);
    assert!(got.tickless);
    assert!(got.wasm_loaded);
    assert_eq!(got.wasm_module, Some("/opt/agent/mod.wasm".to_string()));
    assert_eq!(got.timestamp, "2026-01-01T00:00:00+00:00");
}

#[test]
fn a_second_store_supersedes_the_first_wholesale() {
    let mut slot = StatusSlot::new(startup_status(false, None));
    let first = build_status(100, 200, 1, false, None, "a".to_string());
    slot.store(first);
    let second = build_status(4200, 300, 2, false, None, "b".to_string());
    slot.store(second);
    let got = slot.read();
    assert_eq!(got.cpu_centi_percent, 4200);
    assert_eq!(got.rss_centi_mb, 300);
    assert_eq!(got.uptime_seconds, 2);
    assert_eq!(got.sleep_state, SleepState::Active);
    assert_eq!(got.timestamp, "b");
}

#[test]
fn status_json_renders_every_field_in_order() {
    let status = build_status(
        1234,
        150,
        42,
        false,
        None,
        "2026-01-02T03:04:05+00:00".to_string(),
    );
    assert_eq!(
        status_json(&status),
        "{\"cpu_percent\":12.34,\"rss_mb\":1.50,\"uptime_seconds\":42,\
         \"sleep_state\":\"warm\",\"tickless\":true,\"wasm_loaded\":false,\
         \"wasm_module\":null,\"timestamp\":\"2026-01-02T03:04:05+00:00\"}"
    );
}

#[test]
fn status_json_quotes_and_escapes_the_module_path() {
    let status = build_status(
        0,
        0,
        0,
        true,
        Some("/mods/a\"b.wasm".to_string()),
        String::new(),
    );
    assert_eq!(
        status_json(&status),
        "{\"cpu_percent\":0.00,\"rss_mb\":0.00,\"uptime_seconds\":0,\
         \"sleep_state\":\"idle\",\"tickless\":true,\"wasm_loaded\":true,\
         \"wasm_module\":\"/mods/a\\\"b.wasm\",\"timestamp\":\"\"}"
    );
}

#[test]
fn sampled_status_carries_the_measurements_and_a_timestamp() {
    let status = sampled_status(4500, 123456, 3, true, Some("/m.wasm".to_string()));
    assert_eq!(status.cpu_centi_percent, 4500);
    assert_eq!(status.rss_centi_mb, 123456);
    assert_eq!(status.uptime_seconds, 3);
    assert_eq!(status.sleep_state, SleepState::Active);
    assert!(status.tickless);
    assert!(status.wasm_loaded);
    assert_eq!(status.wasm_module, Some("/m.wasm".to_string()));
    assert!(status.timestamp.len() >= 19);
    assert!(status.timestamp.contains('T'));
}
