//! The band state as reported to the control plane.

use vstd::prelude::*;

verus! {

/// A textual snapshot of the device's classification, as carried on the
/// wire to the control plane: the band ("green", "yellow", "red") and the
/// bioload tier ("nominal", "elevated", "critical").
#[derive(Clone, Debug)]
pub struct BandStateSnapshot {
    pub band: String,
    pub bioload: String,
}

} // verus!
