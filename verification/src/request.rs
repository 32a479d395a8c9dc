//! Actuation requests as the control plane sees them.

use vstd::prelude::*;

verus! {

/// Which actuator a request drives.
#[derive(Clone, Copy, Debug, PartialEq, Eq, Structural)]
pub enum ActuationType {
    Heater,
    Fan,
    Led,
}

/// One request per nonzero actuator channel per frame.
#[derive(Clone, Debug)]
pub struct ActuationRequest {
    pub hive_id: String,
    pub actuator: ActuationType,
    pub magnitude: i32,
    pub duration_ms: u32,
    pub location: String,
    pub requested_at_ms: u64,
}

} // verus!
