//! Tick counting and the one-way fail-safe latch.

use vstd::prelude::*;

verus! {

/// The fail-safe latch. The loop may move it from `Normal` to
/// `ObservationOnly`, never back: only an explicit external intervention
/// (outside this crate) may reconstruct the loop in `Normal`.
#[derive(Clone, Copy, Debug, PartialEq, Eq, Structural)]
pub enum FailsafeMode {
    Normal,
    ObservationOnly,
}

impl FailsafeMode {
    pub fn is_observation_only(&self) -> (r: bool)
        ensures
            r == (*self == FailsafeMode::ObservationOnly),
    {
        matches!(self, FailsafeMode::ObservationOnly)
    }
}

/// The tick value that follows `t`: one more, wrapping at the counter's
/// width so that the loop can run indefinitely.
pub open spec fn next_tick(t: u64) -> u64 {
    if t == u64::MAX {
        0
    } else {
        (t + 1) as u64
    }
}

/// Monotone tick counter driven once per control period.
#[derive(Clone, Copy, Debug, PartialEq, Eq, Structural)]
pub struct TickCounter {
    pub ticks: u64,
}

impl TickCounter {
    pub fn new() -> (r: Self)
        ensures
            r.ticks == 0,
    {
        TickCounter { ticks: 0 }
    }

    pub fn increment(&mut self)
        ensures
            final (self).ticks == next_tick(old(self).ticks),
    {
        if self.ticks == u64::MAX {
            self.ticks = 0;
        } else {
            self.ticks = self.ticks + 1;
        }
    }
}

} // verus!
