//! The externally supplied inference capability the loop is generic over.

use vstd::prelude::*;

use crate::actuator::ActuatorCommandFrame;
use crate::sensor::SensorSnapshot;

verus! {

/// An opaque controller that proposes a raw command frame for a snapshot.
/// Implementations are supplied by the integrator (simulated, mocked or
/// real inference backends); the loop promises nothing about the proposal
/// and clamps it before release, so no contract is demanded here.
pub trait NeuromorphicController {
    fn step_neuromorphic(&mut self, sensors: &SensorSnapshot) -> ActuatorCommandFrame;
}

} // verus!
