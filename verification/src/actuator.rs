//! The control loop's output frame.

use vstd::prelude::*;

verus! {

/// One actuation command per channel: heater target, fan duty, LED level.
#[derive(Clone, Copy, Debug, PartialEq, Eq, Structural)]
pub struct ActuatorCommandFrame {
    pub heater_celsius: i16,
    pub fan_duty_pct: u8,
    pub led_lux: u32,
}

/// The all-zero frame returned whenever the loop declines to actuate.
pub open spec fn observation_frame() -> ActuatorCommandFrame {
    ActuatorCommandFrame { heater_celsius: 0, fan_duty_pct: 0, led_lux: 0 }
}

impl ActuatorCommandFrame {
    /// The frame that commands no actuation at all.
    pub fn observation_only() -> (r: Self)
        ensures
            r == observation_frame(),
    {
        Self { heater_celsius: 0, fan_duty_pct: 0, led_lux: 0 }
    }
}

} // verus!
