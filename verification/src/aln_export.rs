//! The human/audit rendering of a policy bundle, one hive per document.
//!
//! The template is fixed: two-space indentation, fixed field order, a
//! trailing newline. Tooling diffs these documents, so the rendering is
//! byte-exact by contract.

use vstd::prelude::*;
use vstd::string::StringExecFns;

use crate::bundle::HivePolicyBundle;
use crate::model::HivePolicy;
use crate::textfmt::{dec_of, push_dec_u64};

verus! {

/// The exact document text for a policy.
pub open spec fn aln_of(p: HivePolicy) -> Seq<char> {
    "hive \""@ + p.hive_id@ + "\" {\n  region \""@ + p.baseline.climate_zone@
        + "\"\n  strain \""@ + p.baseline.strain@ + "\"\n  efsa {\n    max_colony_strength_loss_pct "@
        + dec_of(p.efsa_spg.max_colony_strength_loss_pct as nat)
        + "\n    max_daily_mortality_pct "@ + dec_of(p.efsa_spg.max_daily_mortality_pct as nat)
        + "\n    max_mites_per_100_bees "@ + dec_of(p.efsa_spg.max_mites_per_100_bees as nat)
        + "\n  }\n  temporal {\n    max_hours_in_yellow_per_72h "@ + dec_of(
        p.temporal.max_hours_in_yellow_per_72h as nat,
    ) + "\n  }\n}\n"@
}

/// Renders the bundle's policy as the fixed audit document.
pub fn to_aln(bundle: &HivePolicyBundle) -> (r: String)
    ensures
        r@ == aln_of(bundle.policy),
{
    let p = &bundle.policy;
    let mut out: String = String::new();
    out.append("hive \"");
    out.append(p.hive_id.as_str());
    out.append("\" {\n  region \"");
    out.append(p.baseline.climate_zone.as_str());
    out.append("\"\n  strain \"");
    out.append(p.baseline.strain.as_str());
    out.append("\"\n  efsa {\n    max_colony_strength_loss_pct ");
    push_dec_u64(&mut out, p.efsa_spg.max_colony_strength_loss_pct as u64);
    out.append("\n    max_daily_mortality_pct ");
    push_dec_u64(&mut out, p.efsa_spg.max_daily_mortality_pct as u64);
    out.append("\n    max_mites_per_100_bees ");
    push_dec_u64(&mut out, p.efsa_spg.max_mites_per_100_bees as u64);
    out.append("\n  }\n  temporal {\n    max_hours_in_yellow_per_72h ");
    push_dec_u64(&mut out, p.temporal.max_hours_in_yellow_per_72h as u64);
    out.append("\n  }\n}\n");
    proof {
        assert(out@ =~= aln_of(bundle.policy));
    }
    out
}

} // verus!
