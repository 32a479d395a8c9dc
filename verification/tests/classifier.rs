use hive_guard::band::{
    classify_band, classify_bioload, BandState, BandThresholds, BioloadState, BioloadThresholds,
};
use hive_guard::sensor::SensorSnapshot;

fn thresholds() -> BandThresholds {
    BandThresholds {
        yellow_min_temp_c: 30,
        yellow_max_temp_c: 37,
        red_min_temp_c: 25,
        red_max_temp_c: 40,
        yellow_min_humidity_pct: 40,
        yellow_max_humidity_pct: 75,
        red_min_humidity_pct: 30,
        red_max_humidity_pct: 90,
        yellow_max_acoustic_surplus_db: 10,
        red_max_acoustic_surplus_db: 20,
        yellow_max_daily_mortality_pct: 3,
        red_max_daily_mortality_pct: 8,
    }
}

fn bioload_thresholds() -> BioloadThresholds {
    BioloadThresholds { elevated_mites_per_100_bees: 3, critical_mites_per_100_bees: 8 }
}

fn nominal_snapshot() -> SensorSnapshot {
    SensorSnapshot {
        brood_temp_c: 34,
        brood_humidity_pct: 60,
        acoustic_surplus_db: 2,
        daily_mortality_pct: 1,
        hive_weight_kg_x10: 412,
        forager_return_delta_pct: 0,
        varroa_mites_per_100_bees: 1,
    }
}

#[test]
fn nominal_snapshot_is_green() {
    let s = nominal_snapshot();
    assert_eq!(classify_band(&s, &thresholds()), BandState::Green);
}

#[test]
fn cold_brood_below_red_min_is_red() {
    let mut s = nominal_snapshot();
    s.brood_temp_c = 20;
    assert_eq!(classify_band(&s, &thresholds()), BandState::Red);
}

#[test]
fn red_condition_dominates_yellow_fields() {
    // Mortality above the red ceiling forces Red even though every other
    // field also violates a yellow bound.
    let mut s = nominal_snapshot();
    s.daily_mortality_pct = 9;
    s.brood_temp_c = 29;
    s.brood_humidity_pct = 39;
    s.acoustic_surplus_db = 11;
    assert_eq!(classify_band(&s, &thresholds()), BandState::Red);
}

#[test]
fn yellow_violation_without_red_is_yellow() {
    let mut s = nominal_snapshot();
    s.brood_temp_c = 28;  // below yellow_min 30, above red_min 25
    assert_eq!(classify_band(&s, &thresholds()), BandState::Yellow);

    let mut s2 = nominal_snapshot();
    s2.acoustic_surplus_db = 15;  // above yellow 10, at most red 20
    assert_eq!(classify_band(&s2, &thresholds()), BandState::Yellow);
}

#[test]
fn humidity_bounds_are_inclusive() {
    let mut s = nominal_snapshot();
    s.brood_humidity_pct = 40;  // exactly yellow_min: inside the band
    assert_eq!(classify_band(&s, &thresholds()), BandState::Green);
    s.brood_humidity_pct = 39;  // strictly outside trips yellow
    assert_eq!(classify_band(&s, &thresholds()), BandState::Yellow);
    s.brood_humidity_pct = 29;  // strictly outside red bound trips red
    assert_eq!(classify_band(&s, &thresholds()), BandState::Red);
}

#[test]
fn bioload_tiers_on_mite_count() {
    let t = bioload_thresholds();
    let mut s = nominal_snapshot();
    s.varroa_mites_per_100_bees = 2;
    assert_eq!(classify_bioload(&s, &t), BioloadState::Nominal);
    s.varroa_mites_per_100_bees = 3;
    assert_eq!(classify_bioload(&s, &t), BioloadState::Elevated);
    s.varroa_mites_per_100_bees = 8;
    assert_eq!(classify_bioload(&s, &t), BioloadState::Critical);
}

#[test]
fn bioload_never_decreases_as_mites_rise() {
    let t = bioload_thresholds();
    let severity = |b: BioloadState| match b {
        BioloadState::Nominal => 0,
        BioloadState::Elevated => 1,
        BioloadState::Critical => 2,
    };
    let mut previous = 0;
    for mites in 0..=20u8 {
        let mut s = nominal_snapshot();
        s.varroa_mites_per_100_bees = mites;
        let now = severity(classify_bioload(&s, &t));
        assert!(now >= previous, "severity dropped at {} mites", mites);
        previous = now;
    }
}

#[test]
fn bioload_independent_of_band_fields() {
    let t = bioload_thresholds();
    let mut s = nominal_snapshot();
    s.brood_temp_c = 10;  // deep red environmentally
    s.varroa_mites_per_100_bees = 0;
    assert_eq!(classify_bioload(&s, &t), BioloadState::Nominal);
}
