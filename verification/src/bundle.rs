//! The signed, versioned container for a compiled policy.

use vstd::prelude::*;
use vstd::string::StringExecFns;

use crate::model::{policy_eq, HivePolicy};
use crate::textfmt::{dec_of, int_dec_of, push_dec_u64, push_dec_i64};

verus! {

/// A versioned, signed policy container. The signature covers the
/// canonical text of the policy together with the exact version and
/// creation timestamp, so that replay of an older version cannot pass for
/// the current one. A bundle whose signature has not been verified must
/// never parameterize either enforcement layer.
#[derive(Clone, Debug)]
pub struct HivePolicyBundle {
    pub policy: HivePolicy,
    pub version: u32,
    /// Creation instant, as seconds since the Unix epoch.
    pub created_at: i64,
    /// Lowercase hex of the 64-byte signature over the canonical text;
    /// empty while the bundle is unsigned.
    pub signature_hex: String,
}

/// The canonical text a bundle's signature covers: every policy field, the
/// version and the creation timestamp, in a fixed order.
pub open spec fn canonical_text_of(policy: HivePolicy, version: u32, created_at: int) -> Seq<
    char,
> {
    "hive_id="@ + policy.hive_id@ + ";loss_pct="@ + dec_of(
        policy.efsa_spg.max_colony_strength_loss_pct as nat,
    ) + ";mortality_pct="@ + dec_of(policy.efsa_spg.max_daily_mortality_pct as nat) + ";mites="@
        + dec_of(policy.efsa_spg.max_mites_per_100_bees as nat) + ";location="@
        + policy.baseline.location_id@ + ";zone="@ + policy.baseline.climate_zone@ + ";strain="@
        + policy.baseline.strain@ + ";temp_c="@ + int_dec_of(
        policy.baseline.baseline_brood_temp_c as int,
    ) + ";humidity_pct="@ + dec_of(policy.baseline.baseline_brood_humidity_pct as nat)
        + ";acoustic_db="@ + int_dec_of(policy.baseline.baseline_acoustic_db as int)
        + ";yellow_hours="@ + dec_of(policy.temporal.max_hours_in_yellow_per_72h as nat)
        + ";version="@ + dec_of(version as nat) + ";created_at="@ + int_dec_of(created_at)
}

impl HivePolicyBundle {
    /// Wraps a freshly compiled policy: first version, created now, not yet
    /// signed. The creation instant is read from the system clock, so
    /// nothing is promised of it.
    pub fn new(policy: HivePolicy) -> (r: Self)
        ensures
            policy_eq(r.policy, policy),
            r.version == 1,
            r.signature_hex@ == Seq::<char>::empty(),
    {
        let created_at = now_unix_seconds();
        HivePolicyBundle { policy, version: 1, created_at, signature_hex: String::new() }
    }

    /// Renders the canonical text the signature covers.
    pub fn canonical_text(&self) -> (r: String)
        ensures
            r@ == canonical_text_of(self.policy, self.version, self.created_at as int),
    {
        let mut out: String = String::new();
        out.append("hive_id=");
        out.append(self.policy.hive_id.as_str());
        out.append(";loss_pct=");
        push_dec_u64(&mut out, self.policy.efsa_spg.max_colony_strength_loss_pct as u64);
        out.append(";mortality_pct=");
        push_dec_u64(&mut out, self.policy.efsa_spg.max_daily_mortality_pct as u64);
        out.append(";mites=");
        push_dec_u64(&mut out, self.policy.efsa_spg.max_mites_per_100_bees as u64);
        out.append(";location=");
        out.append(self.policy.baseline.location_id.as_str());
        out.append(";zone=");
        out.append(self.policy.baseline.climate_zone.as_str());
        out.append(";strain=");
        out.append(self.policy.baseline.strain.as_str());
        out.append(";temp_c=");
        push_dec_i64(&mut out, self.policy.baseline.baseline_brood_temp_c as i64);
        out.append(";humidity_pct=");
        push_dec_u64(&mut out, self.policy.baseline.baseline_brood_humidity_pct as u64);
        out.append(";acoustic_db=");
        push_dec_i64(&mut out, self.policy.baseline.baseline_acoustic_db as i64);
        out.append(";yellow_hours=");
        push_dec_u64(&mut out, self.policy.temporal.max_hours_in_yellow_per_72h as u64);
        out.append(";version=");
        push_dec_u64(&mut out, self.version as u64);
        out.append(";created_at=");
        push_dec_i64(&mut out, self.created_at);
        proof {
            assert(out@ =~= canonical_text_of(
                self.policy,
                self.version,
                self.created_at as int,
            ));
        }
        out
    }
}

/// Relies on `time::OffsetDateTime::now_utc` and `unix_timestamp`: the
/// current instant as seconds since the Unix epoch. The clock's reading is
/// not a function of anything this crate holds, so nothing is promised of
/// the value.
#[verifier::external_body]
fn now_unix_seconds() -> i64 {
    time::OffsetDateTime::now_utc().unix_timestamp()
}

} // verus!
