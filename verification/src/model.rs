//! The policy model: ecological and regulatory limits and the site
//! baseline. Leaf data with no behavior of its own; immutable once
//! compiled into a policy.

use vstd::prelude::*;

verus! {

/// Regulatory ceilings from the EFSA specific-protection-goal scheme.
#[derive(Clone, Copy, Debug, PartialEq, Eq, Structural)]
pub struct EfsaSpgConfig {
    pub max_colony_strength_loss_pct: u8,
    pub max_daily_mortality_pct: u8,
    pub max_mites_per_100_bees: u8,
}

/// The site's reference operating point.
#[derive(Clone, Debug)]
pub struct SiteBaseline {
    pub location_id: String,
    pub climate_zone: String,
    pub strain: String,
    pub baseline_brood_temp_c: i16,
    pub baseline_brood_humidity_pct: u8,
    pub baseline_acoustic_db: i16,
}

/// Temporal envelope: how long the hive may sit in the yellow band per
/// rolling 72-hour window.
#[derive(Clone, Copy, Debug, PartialEq, Eq, Structural)]
pub struct TemporalEnvelope {
    pub max_hours_in_yellow_per_72h: u32,
}

/// A compiled hive policy. Immutable once compiled.
#[derive(Clone, Debug)]
pub struct HivePolicy {
    pub hive_id: String,
    pub efsa_spg: EfsaSpgConfig,
    pub baseline: SiteBaseline,
    pub temporal: TemporalEnvelope,
}

/// A regional EFSA threshold template, for reference taxonomies.
#[derive(Clone, Debug)]
pub struct EfsaTemplate {
    pub region: String,
    pub efsa_spg: EfsaSpgConfig,
}

/// An IUCN red-list reference record.
#[derive(Clone, Debug)]
pub struct IucnReference {
    pub redlist_category: String,
    pub notes: String,
}

/// True when `a` and `b` carry the same baseline, field for field.
pub open spec fn baseline_eq(a: SiteBaseline, b: SiteBaseline) -> bool {
    &&& a.location_id@ == b.location_id@
    &&& a.climate_zone@ == b.climate_zone@
    &&& a.strain@ == b.strain@
    &&& a.baseline_brood_temp_c == b.baseline_brood_temp_c
    &&& a.baseline_brood_humidity_pct == b.baseline_brood_humidity_pct
    &&& a.baseline_acoustic_db == b.baseline_acoustic_db
}

/// True when `a` and `b` are the same policy, field for field.
pub open spec fn policy_eq(a: HivePolicy, b: HivePolicy) -> bool {
    &&& a.hive_id@ == b.hive_id@
    &&& a.efsa_spg == b.efsa_spg
    &&& baseline_eq(a.baseline, b.baseline)
    &&& a.temporal == b.temporal
}

} // verus!
