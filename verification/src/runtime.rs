//! The embedded control loop: classification, latching fail-safe, quota
//! gating, controller invocation and cap clamping, once per control period.

use vstd::prelude::*;

use crate::actuator::{observation_frame, ActuatorCommandFrame};
use crate::band::{band_of, bioload_of, BandState, BioloadState};
use crate::config::ShardConfig;
use crate::controller::NeuromorphicController;
use crate::limits::{live_ops, ShardLimits};
use crate::sensor::SensorSnapshot;
use crate::timebase::{next_tick, FailsafeMode, TickCounter};

verus! {

/// True when the two limit blocks carry the same configured parameters,
/// whatever their quota debit records hold.
pub open spec fn same_limit_params(a: ShardLimits, b: ShardLimits) -> bool {
    &&& a.max_spikes_per_period == b.max_spikes_per_period
    &&& a.max_inferences_per_minute == b.max_inferences_per_minute
    &&& a.max_joules_per_inference_mj == b.max_joules_per_inference_mj
    &&& a.max_actuator_duty_cycle_pct == b.max_actuator_duty_cycle_pct
    &&& a.max_delta_t_c_per_hour == b.max_delta_t_c_per_hour
    &&& a.max_delta_db_per_hour == b.max_delta_db_per_hour
}

/// True when every channel of the frame is at or below its ceiling.
pub open spec fn frame_within_caps(
    f: ActuatorCommandFrame,
    caps: crate::limits::ActuationCaps,
) -> bool {
    &&& f.heater_celsius <= caps.heater_max_celsius
    &&& f.fan_duty_pct <= caps.fan_max_duty_pct
    &&& f.led_lux <= caps.led_max_lux
}

/// True when this step trips the permanent safety latch.
pub open spec fn safety_trip(s: SensorSnapshot, config: ShardConfig) -> bool {
    band_of(s, config.bands) == BandState::Red || bioload_of(s, config.bioload_thresholds)
        == BioloadState::Critical
}

/// The main shard runtime, stepped periodically by an external scheduler.
/// It owns all of its state exclusively and never blocks or performs I/O.
pub struct HiveShardRuntime<C: NeuromorphicController> {
    pub config: ShardConfig,
    pub limits: ShardLimits,
    pub controller: C,
    pub band_state: BandState,
    pub bioload_state: BioloadState,
    pub tick: TickCounter,
    pub failsafe: FailsafeMode,
}

impl<C: NeuromorphicController> HiveShardRuntime<C> {
    pub fn new(config: ShardConfig, controller: C) -> (r: Self)
        ensures
            r.config == config,
            same_limit_params(r.limits, config.limits),
            r.limits.recent_op_ticks@ == config.limits.recent_op_ticks@,
            r.band_state == BandState::Green,
            r.bioload_state == BioloadState::Nominal,
            r.tick.ticks == 0,
            r.failsafe == FailsafeMode::Normal,
    {
        let limits = ShardLimits {
            max_spikes_per_period: config.limits.max_spikes_per_period,
            max_inferences_per_minute: config.limits.max_inferences_per_minute,
            max_joules_per_inference_mj: config.limits.max_joules_per_inference_mj,
            max_actuator_duty_cycle_pct: config.limits.max_actuator_duty_cycle_pct,
            max_delta_t_c_per_hour: config.limits.max_delta_t_c_per_hour,
            max_delta_db_per_hour: config.limits.max_delta_db_per_hour,
            recent_op_ticks: config.limits.recent_op_ticks.clone(),
        };
        Self {
            config,
            limits,
            controller,
            band_state: BandState::Green,
            bioload_state: BioloadState::Nominal,
            tick: TickCounter::new(),
            failsafe: FailsafeMode::Normal,
        }
    }

    /// One control period. Reclassifies both axes, latches the fail-safe on
    /// a red band or critical bioload, and returns the all-zero observation
    /// frame whenever the latch is set or the quota window is exhausted;
    /// otherwise the controller's proposal is clamped to the caps. The
    /// latch is one-way: nothing in this loop ever clears it, and quota
    /// exhaustion alone never sets it.
    pub fn step(&mut self, sensors: &SensorSnapshot) -> (r: ActuatorCommandFrame)
        ensures
            final (self).config == old(self).config,
            final (self).tick.ticks == next_tick(old(self).tick.ticks),
            final (self).band_state == band_of(*sensors, old(self).config.bands),
            final (self).bioload_state == bioload_of(*sensors, old(self).config.bioload_thresholds),
            final (self).failsafe == if old(self).failsafe == FailsafeMode::ObservationOnly
                || safety_trip(*sensors, old(self).config) {
                FailsafeMode::ObservationOnly
            } else {
                FailsafeMode::Normal
            },
            same_limit_params(final (self).limits, old(self).limits),
            final (self).failsafe == FailsafeMode::ObservationOnly ==> r == observation_frame(),
            old(self).failsafe == FailsafeMode::ObservationOnly || safety_trip(
                *sensors,
                old(self).config,
            ) ==> final (self).limits.recent_op_ticks@ == old(self).limits.recent_op_ticks@,
            old(self).failsafe == FailsafeMode::Normal && !safety_trip(*sensors, old(self).config)
                ==> {
                let live = live_ops(
                    old(self).limits.recent_op_ticks@,
                    next_tick(old(self).tick.ticks),
                    old(self).config.quota_profile.window_ticks,
                );
                let admitted = live.len() < old(self).config.quota_profile.max_ops_in_window;
                &&& !admitted ==> r == observation_frame() && final (self).limits.recent_op_ticks@
                    == live
                &&& admitted ==> final (self).limits.recent_op_ticks@ == live.push(
                    next_tick(old(self).tick.ticks),
                ) && frame_within_caps(r, old(self).config.actuation_caps)
            },
    {
        self.tick.increment();
        self.band_state = self.band_state.evaluate(sensors, &self.config.bands);
        self.bioload_state = BioloadState::from_snapshot(sensors, &self.config.bioload_thresholds);

        if self.band_state.is_red() || self.bioload_state.is_critical() {
            self.failsafe = FailsafeMode::ObservationOnly;
        }
        if self.failsafe.is_observation_only() {
            return ActuatorCommandFrame::observation_only();
        }
        let quota_ok = self.limits.check_and_debit_quota(
            self.tick,
            sensors,
            &self.config.quota_profile,
        );
        if !quota_ok {
            // Quota exhaustion is recoverable next window: deny this step
            // only, without tripping the permanent latch.
            return ActuatorCommandFrame::observation_only();
        }
        let mut commands = self.controller.step_neuromorphic(sensors);
        self.limits.enforce_actuation_caps(&mut commands, &self.config.actuation_caps);
        commands
    }

    pub fn band_state(&self) -> (r: BandState)
        ensures
            r == self.band_state,
    {
        self.band_state
    }

    pub fn bioload_state(&self) -> (r: BioloadState)
        ensures
            r == self.bioload_state,
    {
        self.bioload_state
    }

    pub fn failsafe_mode(&self) -> (r: FailsafeMode)
        ensures
            r == self.failsafe,
    {
        self.failsafe
    }

    pub fn limits(&self) -> (r: &ShardLimits)
        ensures
            r == &self.limits,
    {
        &self.limits
    }
}

} // verus!
