//! Environmental band and parasite bioload classification.
//!
//! Two independent axes are derived from every sensor snapshot: the
//! environmental band (Green / Yellow / Red) and the varroa bioload
//! (Nominal / Elevated / Critical), so that neither can mask the other.
//! Bound checks are inclusive-range violations: a value strictly outside
//! `[min, max]` trips the band, failing toward the redder classification
//! whenever ambiguous.

use vstd::prelude::*;

use crate::sensor::SensorSnapshot;

verus! {

#[derive(Clone, Copy, Debug, PartialEq, Eq, Structural)]
pub enum BandState {
    Green,
    Yellow,
    Red,
}

/// Thresholds for the environmental band. Yellow bounds are nested inside
/// the red bounds; violating a red bound dominates everything else.
#[derive(Clone, Copy, Debug, PartialEq, Eq, Structural)]
pub struct BandThresholds {
    pub yellow_min_temp_c: i16,
    pub yellow_max_temp_c: i16,
    pub red_min_temp_c: i16,
    pub red_max_temp_c: i16,
    pub yellow_min_humidity_pct: u8,
    pub yellow_max_humidity_pct: u8,
    pub red_min_humidity_pct: u8,
    pub red_max_humidity_pct: u8,
    pub yellow_max_acoustic_surplus_db: i16,
    pub red_max_acoustic_surplus_db: i16,
    pub yellow_max_daily_mortality_pct: u8,
    pub red_max_daily_mortality_pct: u8,
}

/// True when the snapshot violates some red-band bound.
pub open spec fn red_condition(s: SensorSnapshot, t: BandThresholds) -> bool {
    ||| s.brood_temp_c < t.red_min_temp_c
    ||| s.brood_temp_c > t.red_max_temp_c
    ||| s.brood_humidity_pct < t.red_min_humidity_pct
    ||| s.brood_humidity_pct > t.red_max_humidity_pct
    ||| s.acoustic_surplus_db > t.red_max_acoustic_surplus_db
    ||| s.daily_mortality_pct > t.red_max_daily_mortality_pct
}

/// True when the snapshot violates some yellow-band bound.
pub open spec fn yellow_condition(s: SensorSnapshot, t: BandThresholds) -> bool {
    ||| s.brood_temp_c < t.yellow_min_temp_c
    ||| s.brood_temp_c > t.yellow_max_temp_c
    ||| s.brood_humidity_pct < t.yellow_min_humidity_pct
    ||| s.brood_humidity_pct > t.yellow_max_humidity_pct
    ||| s.acoustic_surplus_db > t.yellow_max_acoustic_surplus_db
    ||| s.daily_mortality_pct > t.yellow_max_daily_mortality_pct
}

/// The band a snapshot classifies to: red conditions short-circuit, then
/// yellow conditions, otherwise Green.
pub open spec fn band_of(s: SensorSnapshot, t: BandThresholds) -> BandState {
    if red_condition(s, t) {
        BandState::Red
    } else if yellow_condition(s, t) {
        BandState::Yellow
    } else {
        BandState::Green
    }
}

impl BandState {
    pub fn is_red(&self) -> (r: bool)
        ensures
            r == (*self == BandState::Red),
    {
        matches!(self, BandState::Red)
    }

    /// Classifies a snapshot. The receiver carries no information: the
    /// result depends on the snapshot and the thresholds alone.
    pub fn evaluate(&self, snapshot: &SensorSnapshot, thresholds: &BandThresholds) -> (r:
        BandState)
        ensures
            r == band_of(*snapshot, *thresholds),
    {
        if snapshot.brood_temp_c < thresholds.red_min_temp_c
            || snapshot.brood_temp_c > thresholds.red_max_temp_c
            || snapshot.brood_humidity_pct < thresholds.red_min_humidity_pct
            || snapshot.brood_humidity_pct > thresholds.red_max_humidity_pct
            || snapshot.acoustic_surplus_db > thresholds.red_max_acoustic_surplus_db
            || snapshot.daily_mortality_pct > thresholds.red_max_daily_mortality_pct {
            BandState::Red
        } else if snapshot.brood_temp_c < thresholds.yellow_min_temp_c
            || snapshot.brood_temp_c > thresholds.yellow_max_temp_c
            || snapshot.brood_humidity_pct < thresholds.yellow_min_humidity_pct
            || snapshot.brood_humidity_pct > thresholds.yellow_max_humidity_pct
            || snapshot.acoustic_surplus_db > thresholds.yellow_max_acoustic_surplus_db
            || snapshot.daily_mortality_pct > thresholds.yellow_max_daily_mortality_pct {
            BandState::Yellow
        } else {
            BandState::Green
        }
    }
}

/// Classifies the environmental band of a snapshot.
pub fn classify_band(snapshot: &SensorSnapshot, thresholds: &BandThresholds) -> (r: BandState)
    ensures
        r == band_of(*snapshot, *thresholds),
{
    BandState::Green.evaluate(snapshot, thresholds)
}

#[derive(Clone, Copy, Debug, PartialEq, Eq, Structural)]
pub enum BioloadState {
    Nominal,
    Elevated,
    Critical,
}

/// Tiering thresholds on varroa mites per 100 bees.
#[derive(Clone, Copy, Debug, PartialEq, Eq, Structural)]
pub struct BioloadThresholds {
    pub elevated_mites_per_100_bees: u8,
    pub critical_mites_per_100_bees: u8,
}

/// The bioload tier of a snapshot: tiered solely on the mite count.
pub open spec fn bioload_of(s: SensorSnapshot, t: BioloadThresholds) -> BioloadState {
    if s.varroa_mites_per_100_bees >= t.critical_mites_per_100_bees {
        BioloadState::Critical
    } else if s.varroa_mites_per_100_bees >= t.elevated_mites_per_100_bees {
        BioloadState::Elevated
    } else {
        BioloadState::Nominal
    }
}

/// Numeric severity of a bioload tier, for stating monotonicity.
pub open spec fn bioload_severity(b: BioloadState) -> int {
    match b {
        BioloadState::Nominal => 0,
        BioloadState::Elevated => 1,
        BioloadState::Critical => 2,
    }
}

impl BioloadState {
    pub fn from_snapshot(snapshot: &SensorSnapshot, thresholds: &BioloadThresholds) -> (r:
        BioloadState)
        ensures
            r == bioload_of(*snapshot, *thresholds),
    {
        if snapshot.varroa_mites_per_100_bees >= thresholds.critical_mites_per_100_bees {
            BioloadState::Critical
        } else if snapshot.varroa_mites_per_100_bees >= thresholds.elevated_mites_per_100_bees {
            BioloadState::Elevated
        } else {
            BioloadState::Nominal
        }
    }

    pub fn is_critical(&self) -> (r: bool)
        ensures
            r == (*self == BioloadState::Critical),
    {
        matches!(self, BioloadState::Critical)
    }
}

/// Classifies the parasite bioload of a snapshot.
pub fn classify_bioload(snapshot: &SensorSnapshot, thresholds: &BioloadThresholds) -> (r:
    BioloadState)
    ensures
        r == bioload_of(*snapshot, *thresholds),
{
    BioloadState::from_snapshot(snapshot, thresholds)
}

/// Red conditions dominate: a snapshot violating any red-band bound
/// classifies Red, whatever its other fields hold.
pub proof fn lemma_red_dominates(s: SensorSnapshot, t: BandThresholds)
    requires
        red_condition(s, t),
    ensures
        band_of(s, t) == BandState::Red,
{
}

/// A snapshot that violates some yellow bound but no red bound classifies
/// Yellow, never Green or Red.
pub proof fn lemma_yellow_between(s: SensorSnapshot, t: BandThresholds)
    requires
        yellow_condition(s, t),
        !red_condition(s, t),
    ensures
        band_of(s, t) == BandState::Yellow,
{
}

/// Bioload classification is monotone in the mite count: raising the mites
/// per 100 bees, all other fields equal, never lowers the severity.
pub proof fn lemma_bioload_monotone(s1: SensorSnapshot, s2: SensorSnapshot, t: BioloadThresholds)
    requires
        s1.varroa_mites_per_100_bees <= s2.varroa_mites_per_100_bees,
    ensures
        bioload_severity(bioload_of(s1, t)) <= bioload_severity(bioload_of(s2, t)),
{
}

} // verus!
