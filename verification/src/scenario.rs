//! A deterministic disturbance scenario: six weeks of daily heater
//! requests under a green band, driven through the enforcer.

use vstd::prelude::*;

use crate::enforcer::Enforcer;
use crate::policy::CpPolicy;
use crate::request::{ActuationRequest, ActuationType};
use crate::state::BandStateSnapshot;

verus! {

/// Runs the scenario: one moderate heater request per simulated day for 42
/// days against a fixed policy, each re-validated under a green band.
pub fn run_simulation()
{
    let policy = CpPolicy {
        max_heater_celsius: 35,
        max_fan_duty_pct: 60,
        max_led_lux: 1000,
        max_delta_t_c_per_hour: 1,
        max_delta_db_per_hour: 3,
    };
    let mut enforcer = Enforcer::new(policy);
    let band_state = BandStateSnapshot { band: "green".to_owned(), bioload: "nominal".to_owned() };
    let mut day: u64 = 0;
    while day < 42
        invariant
            day <= 42,
        decreases 42 - day,
    {
        let req = ActuationRequest {
            hive_id: "sim-hive".to_owned(),
            actuator: ActuationType::Heater,
            magnitude: 30,
            duration_ms: 1000,
            location: "brood".to_owned(),
            requested_at_ms: day * 86400000,
        };
        let _decision = enforcer.decide(req, &band_state);
        day = day + 1;
    }
}

} // verus!
