//! Control-plane policy and decision types.

use vstd::prelude::*;

use crate::request::ActuationRequest;

verus! {

/// Control-plane mirror of the actuation caps plus rate-of-change
/// ceilings, derived from the same signed bundle as the device-local
/// limits so the two layers cannot drift apart.
#[derive(Clone, Copy, Debug, PartialEq, Eq, Structural)]
pub struct CpPolicy {
    pub max_heater_celsius: i16,
    pub max_fan_duty_pct: u8,
    pub max_led_lux: u32,
    pub max_delta_t_c_per_hour: i16,
    pub max_delta_db_per_hour: i16,
}

/// The three decision outcomes. Deny and Modify are first-class outcomes,
/// not errors.
#[derive(Clone, Copy, Debug, PartialEq, Eq, Structural)]
pub enum DecisionKind {
    Allow,
    Modify,
    Deny,
}

/// The enforcer's verdict on one request: the request itself, the outcome,
/// a machine-readable reason, and the magnitude actually authorized.
#[derive(Clone, Debug)]
pub struct ActuationDecision {
    pub request: ActuationRequest,
    pub kind: DecisionKind,
    pub reason: String,
    pub modified_magnitude: i32,
}

} // verus!
