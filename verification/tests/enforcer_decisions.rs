use hive_guard::band::{BandState, BioloadState};
use hive_guard::bridge::band_state_report;
use hive_guard::enforcer::Enforcer;
use hive_guard::policy::{CpPolicy, DecisionKind};
use hive_guard::request::{ActuationRequest, ActuationType};
use hive_guard::state::BandStateSnapshot;

fn policy_with_heater_cap(cap: i16) -> CpPolicy {
    CpPolicy {
        max_heater_celsius: cap,
        max_fan_duty_pct: 60,
        max_led_lux: 800,
        max_delta_t_c_per_hour: 1,
        max_delta_db_per_hour: 3,
    }
}

fn green_band() -> BandStateSnapshot {
    BandStateSnapshot { band: "green".to_string(), bioload: "nominal".to_string() }
}

fn red_band() -> BandStateSnapshot {
    BandStateSnapshot { band: "red".to_string(), bioload: "critical".to_string() }
}

fn heater_request(magnitude: i32) -> ActuationRequest {
    ActuationRequest {
        hive_id: "apiary-07".to_string(),
        actuator: ActuationType::Heater,
        magnitude,
        duration_ms: 1000,
        location: "brood".to_string(),
        requested_at_ms: 0,
    }
}

#[test]
fn red_band_denies_everything() {
    let mut enforcer = Enforcer::new(policy_with_heater_cap(35));
    let decision = enforcer.decide(heater_request(1), &red_band());
    assert!(matches!(decision.kind, DecisionKind::Deny));
    assert_eq!(decision.reason, "band_red");
    assert_eq!(decision.modified_magnitude, 0);
}

#[test]
fn negative_magnitude_is_denied() {
    // Scenario: a request of magnitude -5 under a green band.
    let mut enforcer = Enforcer::new(policy_with_heater_cap(35));
    let decision = enforcer.decide(heater_request(-5), &green_band());
    assert!(matches!(decision.kind, DecisionKind::Deny));
    assert_eq!(decision.reason, "negative_magnitude_denied");
    assert_eq!(decision.modified_magnitude, 0);
}

#[test]
fn over_cap_request_is_modified_to_cap() {
    // Scenario: a request of magnitude 50 under a green band with cap 35.
    let mut enforcer = Enforcer::new(policy_with_heater_cap(35));
    let decision = enforcer.decide(heater_request(50), &green_band());
    assert!(matches!(decision.kind, DecisionKind::Modify));
    assert_eq!(decision.reason, "capped");
    assert_eq!(decision.modified_magnitude, 35);
}

#[test]
fn within_limits_request_is_allowed_unchanged() {
    let mut enforcer = Enforcer::new(policy_with_heater_cap(35));
    let decision = enforcer.decide(heater_request(30), &green_band());
    assert!(matches!(decision.kind, DecisionKind::Allow));
    assert_eq!(decision.reason, "within_limits");
    assert_eq!(decision.modified_magnitude, 30);
}

#[test]
fn rate_of_change_clamps_relative_to_last_authorized() {
    let mut enforcer = Enforcer::new(policy_with_heater_cap(35));
    let first = enforcer.decide(heater_request(30), &green_band());
    assert_eq!(first.modified_magnitude, 30);
    // The policy allows one degree per hour on the heater: 30 -> 31.
    let second = enforcer.decide(heater_request(34), &green_band());
    assert!(matches!(second.kind, DecisionKind::Modify));
    assert_eq!(second.reason, "capped");
    assert_eq!(second.modified_magnitude, 31);
}

#[test]
fn rate_state_is_per_hive_and_actuator() {
    let mut enforcer = Enforcer::new(policy_with_heater_cap(35));
    let first = enforcer.decide(heater_request(30), &green_band());
    assert_eq!(first.modified_magnitude, 30);
    // A different hive has no history, so no rate ceiling applies.
    let mut other = heater_request(34);
    other.hive_id = "apiary-08".to_string();
    let decision = enforcer.decide(other, &green_band());
    assert!(matches!(decision.kind, DecisionKind::Allow));
    assert_eq!(decision.modified_magnitude, 34);
    // The fan channel of the first hive is likewise untouched by the
    // heater's history.
    let mut fan = heater_request(40);
    fan.actuator = ActuationType::Fan;
    let fan_decision = enforcer.decide(fan, &green_band());
    assert!(matches!(fan_decision.kind, DecisionKind::Allow));
    assert_eq!(fan_decision.modified_magnitude, 40);
}

#[test]
fn denied_requests_leave_no_rate_history() {
    let mut enforcer = Enforcer::new(policy_with_heater_cap(35));
    let denied = enforcer.decide(heater_request(-5), &green_band());
    assert!(matches!(denied.kind, DecisionKind::Deny));
    // No history was recorded, so a full-cap request still passes.
    let decision = enforcer.decide(heater_request(35), &green_band());
    assert!(matches!(decision.kind, DecisionKind::Allow));
    assert_eq!(decision.modified_magnitude, 35);
}

#[test]
fn live_red_report_reaches_the_enforcer_as_a_denial() {
    let mut enforcer = Enforcer::new(policy_with_heater_cap(35));
    let live = band_state_report(BandState::Red, BioloadState::Critical);
    let decision = enforcer.decide(heater_request(1), &live);
    assert!(matches!(decision.kind, DecisionKind::Deny));
    assert_eq!(decision.reason, "band_red");
}

#[test]
fn yellow_band_is_not_red() {
    let mut enforcer = Enforcer::new(policy_with_heater_cap(35));
    let band = BandStateSnapshot { band: "yellow".to_string(), bioload: "nominal".to_string() };
    let decision = enforcer.decide(heater_request(10), &band);
    assert!(matches!(decision.kind, DecisionKind::Allow));
}

#[test]
fn decision_carries_the_request_through() {
    let mut enforcer = Enforcer::new(policy_with_heater_cap(35));
    let decision = enforcer.decide(heater_request(50), &green_band());
    assert_eq!(decision.request.hive_id, "apiary-07");
    assert_eq!(decision.request.magnitude, 50);
    assert_eq!(decision.request.duration_ms, 1000);
}
