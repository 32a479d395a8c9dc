//! Device-local rate, energy and actuation limits, the sliding-window quota
//! gate, and actuation-cap clamping.

use vstd::prelude::*;

use crate::actuator::ActuatorCommandFrame;
use crate::sensor::SensorSnapshot;
use crate::timebase::TickCounter;

verus! {

/// Sliding-window quota: at most `max_ops_in_window` actuation-triggering
/// steps within any `window_ticks` consecutive ticks.
#[derive(Clone, Copy, Debug, PartialEq, Eq, Structural)]
pub struct QuotaProfile {
    pub window_ticks: u32,
    pub max_ops_in_window: u32,
}

/// Absolute per-channel actuation ceilings.
#[derive(Clone, Copy, Debug, PartialEq, Eq, Structural)]
pub struct ActuationCaps {
    pub heater_max_celsius: i16,
    pub fan_max_duty_pct: u8,
    pub led_max_lux: u32,
}

/// Device-local limit parameters, plus the quota gate's own record of the
/// ticks on which it admitted an actuation-triggering step.
#[derive(Clone, Debug)]
pub struct ShardLimits {
    pub max_spikes_per_period: u32,
    pub max_inferences_per_minute: u32,
    pub max_joules_per_inference_mj: u32,
    pub max_actuator_duty_cycle_pct: u8,
    pub max_delta_t_c_per_hour: i16,
    pub max_delta_db_per_hour: i16,
    pub recent_op_ticks: Vec<u64>,
}

/// True when a debit recorded at tick `t` still lies inside the window
/// ending at tick `now`.
pub open spec fn in_window(t: u64, now: u64, window_ticks: u32) -> bool {
    t <= now && now - t < window_ticks
}

/// The debits of `ops` that are still inside the window ending at `now`.
pub open spec fn live_ops(ops: Seq<u64>, now: u64, window_ticks: u32) -> Seq<u64> {
    ops.filter(|t: u64| in_window(t, now, window_ticks))
}

/// A frame clamped to the caps, channel by channel: each value above its
/// ceiling is replaced by the ceiling; values at or below it pass through
/// unchanged, so zero or negative commands are never raised.
pub open spec fn clamp_frame(f: ActuatorCommandFrame, caps: ActuationCaps) -> ActuatorCommandFrame {
    ActuatorCommandFrame {
        heater_celsius: if f.heater_celsius > caps.heater_max_celsius {
            caps.heater_max_celsius
        } else {
            f.heater_celsius
        },
        fan_duty_pct: if f.fan_duty_pct > caps.fan_max_duty_pct {
            caps.fan_max_duty_pct
        } else {
            f.fan_duty_pct
        },
        led_lux: if f.led_lux > caps.led_max_lux {
            caps.led_max_lux
        } else {
            f.led_lux
        },
    }
}

/// Clamping is idempotent: clamping a frame a second time against the same
/// caps changes nothing.
pub proof fn lemma_clamp_idempotent(f: ActuatorCommandFrame, caps: ActuationCaps)
    ensures
        clamp_frame(clamp_frame(f, caps), caps) == clamp_frame(f, caps),
{
}

proof fn lemma_filter_push(s: Seq<u64>, x: u64, pred: spec_fn(u64) -> bool)
    ensures
        s.push(x).filter(pred) == if pred(x) {
            s.filter(pred).push(x)
        } else {
            s.filter(pred)
        },
{
    reveal(Seq::filter);
    assert(s.push(x).drop_last() =~= s);
    assert(s.push(x).last() == x);
}

impl ShardLimits {
    /// Evaluates the sliding-window quota gate at the given tick. Debits
    /// that have fallen out of the window are discarded; if fewer than
    /// `quota.max_ops_in_window` debits remain, the step is admitted and
    /// debited. Denial is recoverable: it leaves no other trace than the
    /// kept debits.
    pub fn check_and_debit_quota(
        &mut self,
        tick: TickCounter,
        _sensors: &SensorSnapshot,
        quota: &QuotaProfile,
    ) -> (admitted: bool)
        ensures
            admitted == (live_ops(old(self).recent_op_ticks@, tick.ticks, quota.window_ticks).len()
                < quota.max_ops_in_window),
            final (self).recent_op_ticks@ == if admitted {
                live_ops(old(self).recent_op_ticks@, tick.ticks, quota.window_ticks).push(
                    tick.ticks,
                )
            } else {
                live_ops(old(self).recent_op_ticks@, tick.ticks, quota.window_ticks)
            },
            final (self).max_spikes_per_period == old(self).max_spikes_per_period,
            final (self).max_inferences_per_minute == old(self).max_inferences_per_minute,
            final (self).max_joules_per_inference_mj == old(self).max_joules_per_inference_mj,
            final (self).max_actuator_duty_cycle_pct == old(self).max_actuator_duty_cycle_pct,
            final (self).max_delta_t_c_per_hour == old(self).max_delta_t_c_per_hour,
            final (self).max_delta_db_per_hour == old(self).max_delta_db_per_hour,
    {
        let ghost pred = |t: u64| in_window(t, tick.ticks, quota.window_ticks);
        let mut kept: Vec<u64> = Vec::new();
        let n = self.recent_op_ticks.len();
        let mut i: usize = 0;
        proof {
            assert(self.recent_op_ticks@.take(0int).filter(pred) =~= Seq::<u64>::empty());
            assert(Seq::<u64>::empty().filter(pred) =~= Seq::<u64>::empty()) by {
                reveal(Seq::filter);
            }
        }
        while i < n
            invariant
                i <= n,
                n == self.recent_op_ticks@.len(),
                kept@ == self.recent_op_ticks@.take(i as int).filter(pred),
                pred == (|t: u64| in_window(t, tick.ticks, quota.window_ticks)),
            decreases n - i,
        {
            let t = self.recent_op_ticks[i];
            proof {
                assert(self.recent_op_ticks@.take(i + 1int) =~= self.recent_op_ticks@.take(
                    i as int,
                ).push(t));
                lemma_filter_push(self.recent_op_ticks@.take(i as int), t, pred);
            }
            if t <= tick.ticks && tick.ticks - t < quota.window_ticks as u64 {
                kept.push(t);
            }
            i = i + 1;
        }
        proof {
            assert(self.recent_op_ticks@.take(n as int) =~= self.recent_op_ticks@);
        }
        let admitted = (kept.len() as u64) < quota.max_ops_in_window as u64;
        if admitted {
            kept.push(tick.ticks);
        }
        self.recent_op_ticks = kept;
        admitted
    }

    /// Clamps each channel of the frame to its absolute ceiling. Ceilings
    /// only: a value at or below its cap — in particular zero or a negative
    /// heater command — passes through unchanged.
    pub fn enforce_actuation_caps(&self, frame: &mut ActuatorCommandFrame, caps: &ActuationCaps)
        ensures
            *final (frame) == clamp_frame(*old(frame), *caps),
    {
        if frame.heater_celsius > caps.heater_max_celsius {
            frame.heater_celsius = caps.heater_max_celsius;
        }
        if frame.fan_duty_pct > caps.fan_max_duty_pct {
            frame.fan_duty_pct = caps.fan_max_duty_pct;
        }
        if frame.led_lux > caps.led_max_lux {
            frame.led_lux = caps.led_max_lux;
        }
    }
}

} // verus!
