use hive_guard::actuator::ActuatorCommandFrame;
use hive_guard::band::{BandState, BioloadState};
use hive_guard::bridge::{band_state_report, frame_to_requests, sensors_to_band_state};
use hive_guard::hashing::{digest_hex, fnv1a_bytes};
use hive_guard::limits::{ActuationCaps, ShardLimits};
use hive_guard::request::ActuationType;
use hive_guard::scenario::run_simulation;
use hive_guard::sensor::SensorSnapshot;
use hive_guard::textfmt::{hex_decode, hex_string};

#[test]
fn hex_encoding_round_trips() {
    let bytes = vec![0xbe, 0xef, 0x00, 0x7f];
    let hex = hex_string(bytes.as_slice());
    assert_eq!(hex, "beef007f");
    assert_eq!(hex_decode(&hex), Some(bytes));
    assert_eq!(hex_string(&[]), "");
}

#[test]
fn hex_decode_rejects_bad_input() {
    assert_eq!(hex_decode("abc"), None);  // odd length
    assert_eq!(hex_decode("zz"), None);  // not a hex digit
    assert_eq!(hex_decode("AB"), None);  // uppercase is not canonical
    assert_eq!(hex_decode(""), Some(Vec::new()));
}

#[test]
fn digest_matches_the_reference_fold() {
    // The 64-bit FNV-1a offset basis is the digest of the empty string.
    assert_eq!(fnv1a_bytes(&[]), 0xcbf29ce484222325);
    assert_eq!(digest_hex(""), "cbf29ce484222325");
    assert_eq!(fnv1a_bytes(b"abc"), 0xe71fa2190541574b);
    assert_eq!(digest_hex("abc"), "e71fa2190541574b");
    assert_eq!(digest_hex("abc").len(), 16);
}

#[test]
fn frame_to_requests_emits_one_request_per_nonzero_channel() {
    let frame = ActuatorCommandFrame { heater_celsius: 2, fan_duty_pct: 10, led_lux: 0 };
    let requests = frame_to_requests("host-hive", &frame, 7);
    assert_eq!(requests.len(), 2);
    assert!(matches!(requests[0].actuator, ActuationType::Heater));
    assert_eq!(requests[0].magnitude, 2);
    assert_eq!(requests[0].hive_id, "host-hive");
    assert_eq!(requests[0].duration_ms, 1000);
    assert_eq!(requests[0].location, "brood");
    assert_eq!(requests[0].requested_at_ms, 7);
    assert!(matches!(requests[1].actuator, ActuationType::Fan));
    assert_eq!(requests[1].magnitude, 10);
}

#[test]
fn frame_to_requests_skips_silent_frame_and_tags_led() {
    let silent = ActuatorCommandFrame { heater_celsius: 0, fan_duty_pct: 0, led_lux: 0 };
    assert!(frame_to_requests("h", &silent, 0).is_empty());
    let led = ActuatorCommandFrame { heater_celsius: 0, fan_duty_pct: 0, led_lux: 300 };
    let requests = frame_to_requests("h", &led, 0);
    assert_eq!(requests.len(), 1);
    assert!(matches!(requests[0].actuator, ActuationType::Led));
    assert_eq!(requests[0].location, "entrance");
}

#[test]
fn sensors_to_band_state_reports_the_wire_defaults() {
    let snapshot = SensorSnapshot {
        brood_temp_c: 34,
        brood_humidity_pct: 60,
        acoustic_surplus_db: 2,
        daily_mortality_pct: 1,
        hive_weight_kg_x10: 412,
        forager_return_delta_pct: 0,
        varroa_mites_per_100_bees: 1,
    };
    let state = sensors_to_band_state(&snapshot);
    assert_eq!(state.band, "green");
    assert_eq!(state.bioload, "nominal");
}

#[test]
fn live_band_state_report_carries_the_classification() {
    let report = band_state_report(BandState::Red, BioloadState::Critical);
    assert_eq!(report.band, "red");
    assert_eq!(report.bioload, "critical");
    let report = band_state_report(BandState::Yellow, BioloadState::Elevated);
    assert_eq!(report.band, "yellow");
    assert_eq!(report.bioload, "elevated");
    let report = band_state_report(BandState::Green, BioloadState::Nominal);
    assert_eq!(report.band, "green");
    assert_eq!(report.bioload, "nominal");
}

#[test]
fn cap_clamping_is_idempotent_on_frames() {
    let limits = ShardLimits {
        max_spikes_per_period: 0,
        max_inferences_per_minute: 0,
        max_joules_per_inference_mj: 0,
        max_actuator_duty_cycle_pct: 0,
        max_delta_t_c_per_hour: 0,
        max_delta_db_per_hour: 0,
        recent_op_ticks: Vec::new(),
    };
    let caps = ActuationCaps { heater_max_celsius: 36, fan_max_duty_pct: 70, led_max_lux: 900 };
    let mut frame = ActuatorCommandFrame { heater_celsius: 50, fan_duty_pct: 90, led_lux: 2000 };
    limits.enforce_actuation_caps(&mut frame, &caps);
    let once = frame.clone();
    limits.enforce_actuation_caps(&mut frame, &caps);
    assert_eq!(frame, once);
    assert_eq!(once, ActuatorCommandFrame { heater_celsius: 36, fan_duty_pct: 70, led_lux: 900 });
}

#[test]
fn simulation_runs_to_completion() {
    run_simulation();
}
