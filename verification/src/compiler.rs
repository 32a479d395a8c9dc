//! Policy compilation: validated inputs become an immutable policy inside
//! a versioned bundle.

use vstd::prelude::*;

use crate::bundle::HivePolicyBundle;
use crate::model::{baseline_eq, policy_eq, EfsaSpgConfig, HivePolicy, SiteBaseline, TemporalEnvelope};

verus! {

/// Why compilation rejected its input. Compilation is never partially
/// applied: the first absent section is fatal.
#[derive(Clone, Copy, Debug, PartialEq, Eq, Structural)]
pub enum ValidationError {
    MissingHiveId,
    MissingEfsaSpg,
    MissingBaseline,
    MissingTemporal,
}

impl ValidationError {
    /// The stable diagnostic text for this rejection.
    pub fn message(&self) -> (r: &'static str)
        ensures
            r@ == match *self {
                ValidationError::MissingHiveId => "missing hive_id"@,
                ValidationError::MissingEfsaSpg => "missing efsa_spg"@,
                ValidationError::MissingBaseline => "missing baseline"@,
                ValidationError::MissingTemporal => "missing temporal"@,
            },
    {
        match self {
            ValidationError::MissingHiveId => "missing hive_id",
            ValidationError::MissingEfsaSpg => "missing efsa_spg",
            ValidationError::MissingBaseline => "missing baseline",
            ValidationError::MissingTemporal => "missing temporal",
        }
    }
}

pub struct PolicyCompiler;

impl PolicyCompiler {
    /// Pure assembly of a validated policy into a fresh bundle. No I/O:
    /// the caller supplies every section.
    pub fn compile(
        hive_id: &str,
        efsa_spg: EfsaSpgConfig,
        baseline: SiteBaseline,
        temporal: TemporalEnvelope,
    ) -> (r: HivePolicyBundle)
        ensures
            r.policy.hive_id@ == hive_id@,
            r.policy.efsa_spg == efsa_spg,
            baseline_eq(r.policy.baseline, baseline),
            r.policy.temporal == temporal,
            r.version == 1,
            r.signature_hex@ == Seq::<char>::empty(),
    {
        let policy = HivePolicy { hive_id: hive_id.to_owned(), efsa_spg, baseline, temporal };
        HivePolicyBundle::new(policy)
    }

    /// Assembly from an external loader's sections, each possibly absent.
    /// The first absent section is the error, checked in a fixed order:
    /// hive id, EFSA ceilings, baseline, temporal envelope.
    pub fn compile_from_parts(
        hive_id: Option<String>,
        efsa_spg: Option<EfsaSpgConfig>,
        baseline: Option<SiteBaseline>,
        temporal: Option<TemporalEnvelope>,
    ) -> (r: Result<HivePolicyBundle, ValidationError>)
        ensures
            hive_id is None <==> r == Result::<HivePolicyBundle, ValidationError>::Err(
                ValidationError::MissingHiveId,
            ),
            hive_id is Some && efsa_spg is None <==> r == Result::<
                HivePolicyBundle,
                ValidationError,
            >::Err(ValidationError::MissingEfsaSpg),
            hive_id is Some && efsa_spg is Some && baseline is None <==> r == Result::<
                HivePolicyBundle,
                ValidationError,
            >::Err(ValidationError::MissingBaseline),
            hive_id is Some && efsa_spg is Some && baseline is Some && temporal is None <==> r
                == Result::<HivePolicyBundle, ValidationError>::Err(
                ValidationError::MissingTemporal,
            ),
            r is Ok <==> hive_id is Some && efsa_spg is Some && baseline is Some && temporal
                is Some,
            r is Ok ==> {
                &&& r->Ok_0.policy.hive_id@ == hive_id->0@
                &&& r->Ok_0.policy.efsa_spg == efsa_spg->0
                &&& baseline_eq(r->Ok_0.policy.baseline, baseline->0)
                &&& r->Ok_0.policy.temporal == temporal->0
                &&& r->Ok_0.version == 1
                &&& r->Ok_0.signature_hex@ == Seq::<char>::empty()
            },
    {
        let id = match hive_id {
            Some(id) => id,
            None => {
                return Err(ValidationError::MissingHiveId);
            },
        };
        let efsa = match efsa_spg {
            Some(e) => e,
            None => {
                return Err(ValidationError::MissingEfsaSpg);
            },
        };
        let base = match baseline {
            Some(b) => b,
            None => {
                return Err(ValidationError::MissingBaseline);
            },
        };
        let temp = match temporal {
            Some(t) => t,
            None => {
                return Err(ValidationError::MissingTemporal);
            },
        };
        Ok(Self::compile(id.as_str(), efsa, base, temp))
    }
}

} // verus!
