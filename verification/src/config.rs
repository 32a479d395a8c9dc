//! The device-local configuration block.

use vstd::prelude::*;

use crate::band::{BandThresholds, BioloadThresholds};
use crate::limits::{ActuationCaps, QuotaProfile, ShardLimits};

verus! {

/// Everything the shard runtime needs: limit parameters, classification
/// thresholds, the quota profile and the absolute actuation caps. Derived
/// from a verified policy bundle, never assembled ad hoc in production.
#[derive(Clone, Debug)]
pub struct ShardConfig {
    pub limits: ShardLimits,
    pub bands: BandThresholds,
    pub bioload_thresholds: BioloadThresholds,
    pub quota_profile: QuotaProfile,
    pub actuation_caps: ActuationCaps,
}

} // verus!
