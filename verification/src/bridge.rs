//! Bridging between the device layer and the control plane.
//!
//! Both enforcement layers derive their caps from one canonical signed
//! bundle, so they cannot drift apart; frames leaving the device become
//! one actuation request per nonzero channel.

use vstd::prelude::*;

use crate::actuator::ActuatorCommandFrame;
use crate::band::{BandState, BioloadState};
use crate::bundle::HivePolicyBundle;
use crate::policy::CpPolicy;
use crate::request::{ActuationRequest, ActuationType};
use crate::sensor::SensorSnapshot;
use crate::signing::{signature_matches, BundleSigner};
use crate::state::BandStateSnapshot;
use crate::textfmt::hex_of;

verus! {

/// The control-plane caps a bundle projects to: the heater ceiling sits
/// two degrees above the site baseline; the remaining ceilings are the
/// fixed control-plane defaults.
pub open spec fn cp_policy_of(bundle: HivePolicyBundle) -> CpPolicy {
    CpPolicy {
        max_heater_celsius: (bundle.policy.baseline.baseline_brood_temp_c + 2) as i16,
        max_fan_duty_pct: 60,
        max_led_lux: 800,
        max_delta_t_c_per_hour: 1,
        max_delta_db_per_hour: 3,
    }
}

/// Projects a bundle onto the control-plane policy. The caller must have
/// verified the bundle's signature first; `bundle_to_cp_policy_checked`
/// does both.
pub fn bundle_to_cp_policy(bundle: &HivePolicyBundle) -> (r: CpPolicy)
    requires
        bundle.policy.baseline.baseline_brood_temp_c + 2 <= i16::MAX,
    ensures
        r == cp_policy_of(*bundle),
{
    CpPolicy {
        max_heater_celsius: bundle.policy.baseline.baseline_brood_temp_c + 2,
        max_fan_duty_pct: 60,
        max_led_lux: 800,
        max_delta_t_c_per_hour: 1,
        max_delta_db_per_hour: 3,
    }
}

/// Verifies the bundle's signature and, only if it holds, projects the
/// bundle onto the control-plane policy. An unsigned or malformed
/// signature field is rejected outright; a well-formed one projects only
/// when the signature authority accepts it, so a mismatched bundle never
/// parameterizes the enforcer.
pub fn bundle_to_cp_policy_checked(signer: &BundleSigner, bundle: &HivePolicyBundle) -> (r: Option<
    CpPolicy,
>)
    requires
        bundle.policy.baseline.baseline_brood_temp_c + 2 <= i16::MAX,
    ensures
        r is Some ==> r->0 == cp_policy_of(*bundle),
        r is Some ==> exists|b: Seq<u8>|
            b.len() == 64 && bundle.signature_hex@ == hex_of(b),
        bundle.signature_hex@.len() != 128 ==> r is None,
{
    if signature_matches(signer, bundle) {
        Some(bundle_to_cp_policy(bundle))
    } else {
        None
    }
}

/// What one expected request carries: the actuator, the magnitude and the
/// location tag.
pub open spec fn expected_channels(frame: ActuatorCommandFrame) -> Seq<
    (ActuationType, int, Seq<char>),
> {
    (if frame.heater_celsius != 0 {
        seq![(ActuationType::Heater, frame.heater_celsius as int, "brood"@)]
    } else {
        Seq::empty()
    }) + (if frame.fan_duty_pct != 0 {
        seq![(ActuationType::Fan, frame.fan_duty_pct as int, "brood"@)]
    } else {
        Seq::empty()
    }) + (if frame.led_lux != 0 {
        seq![(ActuationType::Led, frame.led_lux as int, "entrance"@)]
    } else {
        Seq::empty()
    })
}

/// True when the built requests carry exactly the expected channels, in
/// order, each with the hive id, a one-second duration and the snapshot
/// instant.
pub open spec fn requests_match(
    rs: Seq<ActuationRequest>,
    es: Seq<(ActuationType, int, Seq<char>)>,
    hive: Seq<char>,
    ms: u64,
) -> bool {
    &&& rs.len() == es.len()
    &&& forall|i: int|
        0 <= i < rs.len() ==> {
            &&& (#[trigger] rs[i]).hive_id@ == hive
            &&& rs[i].actuator == es[i].0
            &&& rs[i].magnitude as int == es[i].1
            &&& rs[i].duration_ms == 1000
            &&& rs[i].location@ == es[i].2
            &&& rs[i].requested_at_ms == ms
        }
}

/// Turns a command frame into one actuation request per nonzero channel:
/// heater, then fan, then LED.
pub fn frame_to_requests(hive_id: &str, frame: &ActuatorCommandFrame, snapshot_ms: u64) -> (r: Vec<
    ActuationRequest,
>)
    requires
        frame.led_lux <= i32::MAX,
    ensures
        requests_match(r@, expected_channels(*frame), hive_id@, snapshot_ms),
{
    let mut out: Vec<ActuationRequest> = Vec::new();
    if frame.heater_celsius != 0 {
        out.push(
            ActuationRequest {
                hive_id: hive_id.to_owned(),
                actuator: ActuationType::Heater,
                magnitude: frame.heater_celsius as i32,
                duration_ms: 1000,
                location: "brood".to_owned(),
                requested_at_ms: snapshot_ms,
            },
        );
    }
    if frame.fan_duty_pct != 0 {
        out.push(
            ActuationRequest {
                hive_id: hive_id.to_owned(),
                actuator: ActuationType::Fan,
                magnitude: frame.fan_duty_pct as i32,
                duration_ms: 1000,
                location: "brood".to_owned(),
                requested_at_ms: snapshot_ms,
            },
        );
    }
    if frame.led_lux != 0 {
        out.push(
            ActuationRequest {
                hive_id: hive_id.to_owned(),
                actuator: ActuationType::Led,
                magnitude: frame.led_lux as i32,
                duration_ms: 1000,
                location: "entrance".to_owned(),
                requested_at_ms: snapshot_ms,
            },
        );
    }
    out
}

/// The wire form of the device's report to the control plane. The device
/// reports the green band and nominal bioload until live classification is
/// wired through; `band_state_report` carries a live classification, and
/// the enforcer re-validates independently either way.
pub fn sensors_to_band_state(_snapshot: &SensorSnapshot) -> (r: BandStateSnapshot)
    ensures
        r.band@ == "green"@,
        r.bioload@ == "nominal"@,
{
    BandStateSnapshot { band: "green".to_owned(), bioload: "nominal".to_owned() }
}

/// The wire label of a band state.
pub open spec fn band_label(b: BandState) -> Seq<char> {
    match b {
        BandState::Green => "green"@,
        BandState::Yellow => "yellow"@,
        BandState::Red => "red"@,
    }
}

/// The wire label of a bioload state.
pub open spec fn bioload_label(b: BioloadState) -> Seq<char> {
    match b {
        BioloadState::Nominal => "nominal"@,
        BioloadState::Elevated => "elevated"@,
        BioloadState::Critical => "critical"@,
    }
}

/// The wire form of a live classification, as read off the runtime's
/// accessors: a red band reaches the control plane as exactly `"red"`.
pub fn band_state_report(band: BandState, bioload: BioloadState) -> (r: BandStateSnapshot)
    ensures
        r.band@ == band_label(band),
        r.bioload@ == bioload_label(bioload),
{
    let band_text: &str = match band {
        BandState::Green => "green",
        BandState::Yellow => "yellow",
        BandState::Red => "red",
    };
    let bioload_text: &str = match bioload {
        BioloadState::Nominal => "nominal",
        BioloadState::Elevated => "elevated",
        BioloadState::Critical => "critical",
    };
    BandStateSnapshot { band: band_text.to_owned(), bioload: bioload_text.to_owned() }
}

} // verus!
