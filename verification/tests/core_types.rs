use hive_guard::actuator::ActuatorCommandFrame;
use hive_guard::compiler::PolicyCompiler;
use hive_guard::model::{EfsaSpgConfig, SiteBaseline, TemporalEnvelope};
use hive_guard::timebase::{FailsafeMode, TickCounter};

#[test]
fn observation_frame_is_all_zero() {
    let frame = ActuatorCommandFrame::observation_only();
    assert_eq!(frame.heater_celsius, 0);
    assert_eq!(frame.fan_duty_pct, 0);
    assert_eq!(frame.led_lux, 0);
}

#[test]
fn failsafe_mode_reports_observation_only() {
    assert!(!FailsafeMode::Normal.is_observation_only());
    assert!(FailsafeMode::ObservationOnly.is_observation_only());
}

#[test]
fn tick_counter_increments_and_wraps() {
    let mut tick = TickCounter::new();
    assert_eq!(tick.ticks, 0);
    tick.increment();
    assert_eq!(tick.ticks, 1);
    tick.ticks = u64::MAX;
    tick.increment();
    assert_eq!(tick.ticks, 0);
}

#[test]
fn canonical_text_renders_negative_values_with_sign() {
    let bundle = PolicyCompiler::compile(
        "polar-hive",
        EfsaSpgConfig {
            max_colony_strength_loss_pct: 10,
            max_daily_mortality_pct: 5,
            max_mites_per_100_bees: 3,
        },
        SiteBaseline {
            location_id: "site-9".to_string(),
            climate_zone: "boreal".to_string(),
            strain: "carniolan".to_string(),
            baseline_brood_temp_c: -7,
            baseline_brood_humidity_pct: 60,
            baseline_acoustic_db: -12,
        },
        TemporalEnvelope { max_hours_in_yellow_per_72h: 6 },
    );
    let text = bundle.canonical_text();
    assert!(text.contains(";temp_c=-7;"));
    assert!(text.contains(";acoustic_db=-12;"));
    assert!(text.contains(";mites=3;"));
}
