//! Actuator backend capabilities and their no-op mock implementations.

use vstd::prelude::*;

verus! {

/// A heater output the integrator supplies.
pub trait HeaterBackend {
    fn set_celsius(&mut self, celsius: i16);
}

/// A fan output the integrator supplies.
pub trait FanBackend {
    fn set_duty_pct(&mut self, duty: u8);
}

/// An LED output the integrator supplies.
pub trait LedBackend {
    fn set_lux(&mut self, lux: u32);
}

/// Mock backends that swallow every command, for bench runs.
pub struct MockHeater;

pub struct MockFan;

pub struct MockLed;

impl HeaterBackend for MockHeater {
    fn set_celsius(&mut self, _celsius: i16) {
    }
}

impl FanBackend for MockFan {
    fn set_duty_pct(&mut self, _duty: u8) {
    }
}

impl LedBackend for MockLed {
    fn set_lux(&mut self, _lux: u32) {
    }
}

} // verus!
