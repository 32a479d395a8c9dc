use hive_guard::actuator::ActuatorCommandFrame;
use hive_guard::band::{BandState, BandThresholds, BioloadState, BioloadThresholds};
use hive_guard::config::ShardConfig;
use hive_guard::controller::NeuromorphicController;
use hive_guard::limits::{ActuationCaps, QuotaProfile, ShardLimits};
use hive_guard::runtime::HiveShardRuntime;
use hive_guard::sensor::SensorSnapshot;
use hive_guard::timebase::FailsafeMode;

/// A controller that always proposes the same aggressive frame.
struct FixedController {
    frame: ActuatorCommandFrame,
}

impl NeuromorphicController for FixedController {
    fn step_neuromorphic(&mut self, _sensors: &SensorSnapshot) -> ActuatorCommandFrame {
        self.frame.clone()
    }
}

fn config() -> ShardConfig {
    ShardConfig {
        limits: ShardLimits {
            max_spikes_per_period: 1000,
            max_inferences_per_minute: 60,
            max_joules_per_inference_mj: 5,
            max_actuator_duty_cycle_pct: 50,
            max_delta_t_c_per_hour: 1,
            max_delta_db_per_hour: 3,
            recent_op_ticks: Vec::new(),
        },
        bands: BandThresholds {
            yellow_min_temp_c: 30,
            yellow_max_temp_c: 37,
            red_min_temp_c: 25,
            red_max_temp_c: 40,
            yellow_min_humidity_pct: 40,
            yellow_max_humidity_pct: 75,
            red_min_humidity_pct: 30,
            red_max_humidity_pct: 90,
            yellow_max_acoustic_surplus_db: 10,
            red_max_acoustic_surplus_db: 20,
            yellow_max_daily_mortality_pct: 3,
            red_max_daily_mortality_pct: 8,
        },
        bioload_thresholds: BioloadThresholds {
            elevated_mites_per_100_bees: 3,
            critical_mites_per_100_bees: 8,
        },
        quota_profile: QuotaProfile { window_ticks: 10, max_ops_in_window: 2 },
        actuation_caps: ActuationCaps {
            heater_max_celsius: 36,
            fan_max_duty_pct: 70,
            led_max_lux: 900,
        },
    }
}

fn good_snapshot() -> SensorSnapshot {
    SensorSnapshot {
        brood_temp_c: 34,
        brood_humidity_pct: 60,
        acoustic_surplus_db: 2,
        daily_mortality_pct: 1,
        hive_weight_kg_x10: 412,
        forager_return_delta_pct: 0,
        varroa_mites_per_100_bees: 1,
    }
}

fn hot_controller() -> FixedController {
    FixedController {
        frame: ActuatorCommandFrame { heater_celsius: 50, fan_duty_pct: 90, led_lux: 2000 },
    }
}

#[test]
fn green_step_returns_clamped_frame() {
    let mut rt = HiveShardRuntime::new(config(), hot_controller());
    let frame = rt.step(&good_snapshot());
    assert_eq!(frame.heater_celsius, 36);
    assert_eq!(frame.fan_duty_pct, 70);
    assert_eq!(frame.led_lux, 900);
    assert_eq!(rt.band_state(), BandState::Green);
    assert_eq!(rt.bioload_state(), BioloadState::Nominal);
    assert_eq!(rt.failsafe_mode(), FailsafeMode::Normal);
}

#[test]
fn cold_snapshot_trips_failsafe_and_zeroes_frame() {
    // Scenario: brood temperature far below the yellow minimum of 30 is
    // also below the red minimum, so the step goes red and latches.
    let mut rt = HiveShardRuntime::new(config(), hot_controller());
    let mut s = good_snapshot();
    s.brood_temp_c = 20;
    let frame = rt.step(&s);
    assert_eq!(frame.heater_celsius, 0);
    assert_eq!(frame.fan_duty_pct, 0);
    assert_eq!(frame.led_lux, 0);
    assert_eq!(rt.band_state(), BandState::Red);
    assert_eq!(rt.failsafe_mode(), FailsafeMode::ObservationOnly);
}

#[test]
fn failsafe_latch_is_sticky_across_recovered_sensors() {
    let mut rt = HiveShardRuntime::new(config(), hot_controller());
    let mut s = good_snapshot();
    s.varroa_mites_per_100_bees = 9;  // critical bioload trips the latch
    let tripped = rt.step(&s);
    assert_eq!(tripped, ActuatorCommandFrame { heater_celsius: 0, fan_duty_pct: 0, led_lux: 0 });
    assert_eq!(rt.failsafe_mode(), FailsafeMode::ObservationOnly);
    // Sensors recover completely, yet every later frame stays zero.
    for _ in 0..5 {
        let frame = rt.step(&good_snapshot());
        assert_eq!(frame.heater_celsius, 0);
        assert_eq!(frame.fan_duty_pct, 0);
        assert_eq!(frame.led_lux, 0);
        assert_eq!(rt.failsafe_mode(), FailsafeMode::ObservationOnly);
    }
}

#[test]
fn quota_exhaustion_denies_without_latching() {
    let mut rt = HiveShardRuntime::new(config(), hot_controller());
    let s = good_snapshot();
    // Two admitted steps fill the window of ten ticks.
    assert_ne!(rt.step(&s).heater_celsius, 0);
    assert_ne!(rt.step(&s).heater_celsius, 0);
    // The third step is denied, but the latch stays clear.
    let denied = rt.step(&s);
    assert_eq!(denied.heater_celsius, 0);
    assert_eq!(denied.fan_duty_pct, 0);
    assert_eq!(denied.led_lux, 0);
    assert_eq!(rt.failsafe_mode(), FailsafeMode::Normal);
}

#[test]
fn quota_recovers_after_window_passes() {
    let mut rt = HiveShardRuntime::new(config(), hot_controller());
    let s = good_snapshot();
    // Ticks one and two are admitted and fill the window.
    assert_ne!(rt.step(&s).heater_celsius, 0);
    assert_ne!(rt.step(&s).heater_celsius, 0);
    // Ticks three through ten still see both debits inside the window.
    for _ in 0..8 {
        assert_eq!(rt.step(&s).heater_celsius, 0);
    }
    // At tick eleven the first debit has aged out, so a slot is free.
    let frame = rt.step(&s);
    assert_ne!(frame.heater_celsius, 0);
    assert_eq!(rt.failsafe_mode(), FailsafeMode::Normal);
}

#[test]
fn negative_heater_command_passes_unclamped() {
    let cool = FixedController {
        frame: ActuatorCommandFrame { heater_celsius: -4, fan_duty_pct: 0, led_lux: 0 },
    };
    let mut rt = HiveShardRuntime::new(config(), cool);
    let frame = rt.step(&good_snapshot());
    assert_eq!(frame.heater_celsius, -4);
}

#[test]
fn limits_accessor_reflects_config() {
    let rt = HiveShardRuntime::new(config(), hot_controller());
    assert_eq!(rt.limits().max_spikes_per_period, 1000);
    assert_eq!(rt.limits().max_delta_t_c_per_hour, 1);
}
