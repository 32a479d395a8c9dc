//! The control-plane decision engine over actuation requests.
//!
//! Every request is re-validated against the bridged policy and the
//! independently reported band state; the enforcer never trusts the device.
//! Its only mutable state is the last authorized magnitude per hive and
//! actuator, against which rate-of-change clamping is applied.

use vstd::prelude::*;
use vstd::math::{max, min};

use crate::policy::{ActuationDecision, CpPolicy, DecisionKind};
use crate::request::{ActuationRequest, ActuationType};
use crate::state::BandStateSnapshot;

verus! {

/// One record of the most recent authorized magnitude for a hive/actuator
/// pair.
#[derive(Clone, Debug)]
pub struct LastAuthorized {
    pub hive_id: String,
    pub actuator: ActuationType,
    pub magnitude: i32,
}

/// The most recently recorded magnitude for the pair, if any: the record
/// written last wins.
pub open spec fn find_last(s: Seq<LastAuthorized>, hive: Seq<char>, act: ActuationType) -> Option<
    i32,
>
    decreases s.len(),
{
    if s.len() == 0 {
        None
    } else if s.last().hive_id@ == hive && s.last().actuator == act {
        Some(s.last().magnitude)
    } else {
        find_last(s.drop_last(), hive, act)
    }
}

/// The absolute ceiling the policy sets for an actuator.
pub open spec fn actuator_cap(p: CpPolicy, act: ActuationType) -> int {
    match act {
        ActuationType::Heater => p.max_heater_celsius as int,
        ActuationType::Fan => p.max_fan_duty_pct as int,
        ActuationType::Led => p.max_led_lux as int,
    }
}

/// The rate-of-change ceiling relative to the last authorized magnitude.
/// Only the heater has a configured per-hour delta ceiling; the other
/// channels are bounded by their absolute caps alone.
pub open spec fn rate_ceiling(p: CpPolicy, act: ActuationType, last: Option<i32>) -> Option<int> {
    match act {
        ActuationType::Heater => match last {
            Some(l) => Some(l as int + p.max_delta_t_c_per_hour as int),
            None => None,
        },
        _ => None,
    }
}

/// The magnitude actually authorized for a non-negative request: the
/// request clamped to the absolute cap and to the rate ceiling, and never
/// below zero.
pub open spec fn authorized_magnitude(
    p: CpPolicy,
    act: ActuationType,
    last: Option<i32>,
    requested: int,
) -> int {
    let capped = min(requested, actuator_cap(p, act));
    let rated = match rate_ceiling(p, act, last) {
        Some(rc) => min(capped, rc),
        None => capped,
    };
    max(rated, 0)
}

/// Appending a record makes it the pair's latest and touches no other pair.
pub proof fn lemma_find_last_push(s: Seq<LastAuthorized>, rec: LastAuthorized, hive: Seq<char>, act: ActuationType)
    ensures
        rec.hive_id@ == hive && rec.actuator == act ==> find_last(s.push(rec), hive, act)
            == Some(rec.magnitude),
        !(rec.hive_id@ == hive && rec.actuator == act) ==> find_last(s.push(rec), hive, act)
            == find_last(s, hive, act),
{
    assert(s.push(rec).drop_last() =~= s);
    assert(s.push(rec).last() == rec);
}

/// The decision engine. Policy and caps are read-only; the per-pair last
/// authorized magnitudes are this component's only mutable state.
pub struct Enforcer {
    pub policy: CpPolicy,
    pub last_authorized: Vec<LastAuthorized>,
}

impl Enforcer {
    pub fn new(policy: CpPolicy) -> (r: Self)
        ensures
            r.policy == policy,
            r.last_authorized@ == Seq::<LastAuthorized>::empty(),
    {
        Enforcer { policy, last_authorized: Vec::new() }
    }

    /// The magnitude last authorized for the pair, scanning the newest
    /// record first.
    fn lookup_last(&self, hive: &String, act: ActuationType) -> (r: Option<i32>)
        ensures
            r == find_last(self.last_authorized@, hive@, act),
    {
        let n = self.last_authorized.len();
        let mut idx = n;
        proof {
            assert(self.last_authorized@.take(n as int) =~= self.last_authorized@);
        }
        while idx > 0
            invariant
                idx <= n,
                n == self.last_authorized@.len(),
                find_last(self.last_authorized@, hive@, act) == find_last(
                    self.last_authorized@.take(idx as int),
                    hive@,
                    act,
                ),
            decreases idx,
        {
            let entry = &self.last_authorized[idx - 1];
            proof {
                assert(self.last_authorized@.take(idx as int).drop_last()
                    =~= self.last_authorized@.take(idx - 1int));
                assert(self.last_authorized@.take(idx as int).last()
                    == self.last_authorized@[idx - 1int]);
            }
            if entry.hive_id == *hive && entry.actuator == act {
                return Some(entry.magnitude);
            }
            idx = idx - 1;
        }
        proof {
            assert(self.last_authorized@.take(0int) =~= Seq::<LastAuthorized>::empty());
        }
        None
    }

    /// Decides one request under the reported band state.
    ///
    /// A red band denies with reason `band_red`; a negative magnitude
    /// denies with reason `negative_magnitude_denied`; otherwise the
    /// magnitude is clamped to the actuator's cap and rate ceiling, giving
    /// `Modify` with reason `capped` when clamping changed it and `Allow`
    /// with reason `within_limits` when it did not. Allowed and modified
    /// magnitudes are recorded as the pair's last authorized value; denials
    /// record nothing.
    pub fn decide(&mut self, req: ActuationRequest, band_state: &BandStateSnapshot) -> (r:
        ActuationDecision)
        ensures
            final (self).policy == old(self).policy,
            r.request == req,
            band_state.band@ == "red"@ ==> {
                &&& r.kind == DecisionKind::Deny
                &&& r.reason@ == "band_red"@
                &&& r.modified_magnitude == 0
                &&& final (self).last_authorized@ == old(self).last_authorized@
            },
            band_state.band@ != "red"@ && req.magnitude < 0 ==> {
                &&& r.kind == DecisionKind::Deny
                &&& r.reason@ == "negative_magnitude_denied"@
                &&& r.modified_magnitude == 0
                &&& final (self).last_authorized@ == old(self).last_authorized@
            },
            band_state.band@ != "red"@ && req.magnitude >= 0 ==> {
                let last = find_last(old(self).last_authorized@, req.hive_id@, req.actuator);
                let auth = authorized_magnitude(
                    old(self).policy,
                    req.actuator,
                    last,
                    req.magnitude as int,
                );
                &&& r.modified_magnitude == auth
                &&& auth == req.magnitude ==> r.kind == DecisionKind::Allow && r.reason@
                    == "within_limits"@
                &&& auth != req.magnitude ==> r.kind == DecisionKind::Modify && r.reason@
                    == "capped"@
                &&& find_last(final (self).last_authorized@, req.hive_id@, req.actuator) == Some(
                    r.modified_magnitude,
                )
                &&& forall|hive2: Seq<char>, act2: ActuationType|
                    !(hive2 == req.hive_id@ && act2 == req.actuator) ==> find_last(
                        final (self).last_authorized@,
                        hive2,
                        act2,
                    ) == find_last(old(self).last_authorized@, hive2, act2)
            },
    {
        let red: String = "red".to_owned();
        if band_state.band == red {
            return ActuationDecision {
                request: req,
                kind: DecisionKind::Deny,
                reason: "band_red".to_owned(),
                modified_magnitude: 0,
            };
        }
        if req.magnitude < 0 {
            return ActuationDecision {
                request: req,
                kind: DecisionKind::Deny,
                reason: "negative_magnitude_denied".to_owned(),
                modified_magnitude: 0,
            };
        }
        let last = self.lookup_last(&req.hive_id, req.actuator);
        let cap: i64 = match req.actuator {
            ActuationType::Heater => self.policy.max_heater_celsius as i64,
            ActuationType::Fan => self.policy.max_fan_duty_pct as i64,
            ActuationType::Led => self.policy.max_led_lux as i64,
        };
        let mut auth: i64 = if (req.magnitude as i64) < cap {
            req.magnitude as i64
        } else {
            cap
        };
        if matches!(req.actuator, ActuationType::Heater) {
            if let Some(l) = last {
                let rate: i64 = l as i64 + self.policy.max_delta_t_c_per_hour as i64;
                if rate < auth {
                    auth = rate;
                }
            }
        }
        if auth < 0 {
            auth = 0;
        }
        let authorized: i32 = auth as i32;
        let rec = LastAuthorized {
            hive_id: req.hive_id.clone(),
            actuator: req.actuator,
            magnitude: authorized,
        };
        proof {
            lemma_find_last_push(
                self.last_authorized@,
                rec,
                req.hive_id@,
                req.actuator,
            );
            assert forall|hive2: Seq<char>, act2: ActuationType|
                !(hive2 == req.hive_id@ && act2 == req.actuator) implies find_last(
                self.last_authorized@.push(rec),
                hive2,
                act2,
            ) == find_last(self.last_authorized@, hive2, act2) by {
                lemma_find_last_push(self.last_authorized@, rec, hive2, act2);
            }
        }
        self.last_authorized.push(rec);
        if authorized == req.magnitude {
            ActuationDecision {
                request: req,
                kind: DecisionKind::Allow,
                reason: "within_limits".to_owned(),
                modified_magnitude: authorized,
            }
        } else {
            ActuationDecision {
                request: req,
                kind: DecisionKind::Modify,
                reason: "capped".to_owned(),
                modified_magnitude: authorized,
            }
        }
    }
}

} // verus!
