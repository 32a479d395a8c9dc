//! The hash-linked, append-only decision log.
//!
//! Each entry commits to the digest of its predecessor's canonical body
//! (everything but the predecessor's own link field), so any gap, edit or
//! reordering shows up as a broken link — no central sequencer is needed.
//! Verification is a pure re-fold over the stored sequence.

use vstd::prelude::*;
use vstd::string::StringExecFns;

use crate::hashing::{digest_hex, digest_hex_of, lemma_digest_hex_len};
use crate::policy::{ActuationDecision, DecisionKind};
use crate::request::ActuationType;
use crate::state::BandStateSnapshot;
use crate::textfmt::{dec_of, int_dec_of, push_dec_i64, push_dec_u64};

verus! {

/// The wire label of an actuator kind.
pub open spec fn actuator_label(a: ActuationType) -> Seq<char> {
    match a {
        ActuationType::Heater => "heater"@,
        ActuationType::Fan => "fan"@,
        ActuationType::Led => "led"@,
    }
}

/// The wire label of a decision kind.
pub open spec fn kind_label(k: DecisionKind) -> Seq<char> {
    match k {
        DecisionKind::Allow => "allow"@,
        DecisionKind::Modify => "modify"@,
        DecisionKind::Deny => "deny"@,
    }
}

/// The label of an actuator kind.
pub fn actuator_label_str(a: ActuationType) -> (r: &'static str)
    ensures
        r@ == actuator_label(a),
{
    match a {
        ActuationType::Heater => "heater",
        ActuationType::Fan => "fan",
        ActuationType::Led => "led",
    }
}

/// The label of a decision kind.
pub fn kind_label_str(k: DecisionKind) -> (r: &'static str)
    ensures
        r@ == kind_label(k),
{
    match k {
        DecisionKind::Allow => "allow",
        DecisionKind::Modify => "modify",
        DecisionKind::Deny => "deny",
    }
}

/// One audit record: a decision, the band state it was taken under, and
/// the digest of the predecessor record's body.
#[derive(Clone, Debug)]
pub struct DecisionLogEntry {
    pub id: String,
    /// Record instant, as seconds since the Unix epoch.
    pub timestamp: i64,
    pub decision: ActuationDecision,
    pub band_state: BandStateSnapshot,
    /// Digest of the previous entry's canonical body; empty for the first
    /// entry of a chain.
    pub hash_prev_hex: String,
}

/// The canonical body of an entry: every field but the entry's own link,
/// in a fixed order.
pub open spec fn entry_body_text(e: DecisionLogEntry) -> Seq<char> {
    "id="@ + e.id@ + ";ts="@ + int_dec_of(e.timestamp as int) + ";hive="@ + e.decision.request.hive_id@
        + ";actuator="@ + actuator_label(e.decision.request.actuator) + ";magnitude="@ + int_dec_of(
        e.decision.request.magnitude as int,
    ) + ";duration_ms="@ + dec_of(e.decision.request.duration_ms as nat) + ";location="@
        + e.decision.request.location@ + ";requested_at="@ + dec_of(
        e.decision.request.requested_at_ms as nat,
    ) + ";kind="@ + kind_label(e.decision.kind) + ";reason="@ + e.decision.reason@ + ";modified="@
        + int_dec_of(e.decision.modified_magnitude as int) + ";band="@ + e.band_state.band@
        + ";bioload="@ + e.band_state.bioload@
}

/// Renders an entry's canonical body.
pub fn entry_body(e: &DecisionLogEntry) -> (r: String)
    ensures
        r@ == entry_body_text(*e),
{
    let mut out: String = String::new();
    out.append("id=");
    out.append(e.id.as_str());
    out.append(";ts=");
    push_dec_i64(&mut out, e.timestamp);
    out.append(";hive=");
    out.append(e.decision.request.hive_id.as_str());
    out.append(";actuator=");
    out.append(actuator_label_str(e.decision.request.actuator));
    out.append(";magnitude=");
    push_dec_i64(&mut out, e.decision.request.magnitude as i64);
    out.append(";duration_ms=");
    push_dec_u64(&mut out, e.decision.request.duration_ms as u64);
    out.append(";location=");
    out.append(e.decision.request.location.as_str());
    out.append(";requested_at=");
    push_dec_u64(&mut out, e.decision.request.requested_at_ms);
    out.append(";kind=");
    out.append(kind_label_str(e.decision.kind));
    out.append(";reason=");
    out.append(e.decision.reason.as_str());
    out.append(";modified=");
    push_dec_i64(&mut out, e.decision.modified_magnitude as i64);
    out.append(";band=");
    out.append(e.band_state.band.as_str());
    out.append(";bioload=");
    out.append(e.band_state.bioload.as_str());
    proof {
        assert(out@ =~= entry_body_text(*e));
    }
    out
}

/// Every entry after the first carries the digest of its predecessor's
/// body.
pub open spec fn links_ok(s: Seq<DecisionLogEntry>) -> bool {
    forall|i: int|
        0 <= i && i + 1 < s.len() ==> #[trigger] s[i + 1].hash_prev_hex@ == digest_hex_of(
            entry_body_text(s[i]),
        )
}

/// A well-formed chain: the first entry carries the empty link, and every
/// later entry links to its predecessor.
pub open spec fn chain_wf(s: Seq<DecisionLogEntry>) -> bool {
    &&& s.len() > 0 ==> s[0].hash_prev_hex@ == Seq::<char>::empty()
    &&& links_ok(s)
}

/// The append-only decision log. Appends to one log are strictly ordered:
/// each append completes its hash linkage before the next begins.
pub struct DecisionLog {
    pub entries: Vec<DecisionLogEntry>,
}

impl DecisionLog {
    pub fn new() -> (r: Self)
        ensures
            r.entries@ == Seq::<DecisionLogEntry>::empty(),
    {
        DecisionLog { entries: Vec::new() }
    }

    /// Appends one decision, linking it to the current tail. Appending to
    /// a well-formed chain keeps it well-formed.
    pub fn append(
        &mut self,
        id: String,
        timestamp: i64,
        decision: ActuationDecision,
        band_state: BandStateSnapshot,
    )
        ensures
            final (self).entries@.len() == old(self).entries@.len() + 1,
            final (self).entries@.drop_last() == old(self).entries@,
            final (self).entries@.last().id@ == id@,
            final (self).entries@.last().timestamp == timestamp,
            final (self).entries@.last().decision == decision,
            final (self).entries@.last().band_state == band_state,
            final (self).entries@.last().hash_prev_hex@ == if old(self).entries@.len() == 0 {
                Seq::<char>::empty()
            } else {
                digest_hex_of(entry_body_text(old(self).entries@.last()))
            },
            chain_wf(old(self).entries@) ==> chain_wf(final (self).entries@),
    {
        let n = self.entries.len();
        let hash_prev_hex: String = if n == 0 {
            String::new()
        } else {
            let body = entry_body(&self.entries[n - 1]);
            digest_hex(body.as_str())
        };
        let entry = DecisionLogEntry { id, timestamp, decision, band_state, hash_prev_hex };
        let ghost old_entries = self.entries@;
        let ghost new_entries = self.entries@.push(entry);
        proof {
            assert(new_entries.drop_last() =~= old_entries);
            if chain_wf(old_entries) {
                assert forall|i: int| 0 <= i && i + 1 < new_entries.len() implies #[trigger] new_entries[i
                    + 1].hash_prev_hex@ == digest_hex_of(entry_body_text(new_entries[i])) by {
                    if i + 1 < old_entries.len() {
                        assert(old_entries[i + 1].hash_prev_hex@ == digest_hex_of(
                            entry_body_text(old_entries[i]),
                        ));
                    } else {
                        assert(new_entries[i] == old_entries.last());
                    }
                }
            }
        }
        self.entries.push(entry);
    }

    /// The stored entries, oldest first.
    pub fn entries(&self) -> (r: &Vec<DecisionLogEntry>)
        ensures
            r == &self.entries,
    {
        &self.entries
    }
}

/// Re-folds the whole sequence and checks every link and the genesis
/// entry: true exactly when the chain is well-formed.
pub fn verify_chain(entries: &Vec<DecisionLogEntry>) -> (r: bool)
    ensures
        r == chain_wf(entries@),
{
    let n = entries.len();
    if n == 0 {
        return true;
    }
    if !entries[0].hash_prev_hex.as_str().is_empty() {
        proof {
            assert(!(entries@[0].hash_prev_hex@ =~= Seq::<char>::empty()));
        }
        return false;
    }
    proof {
        assert(entries@[0].hash_prev_hex@ =~= Seq::<char>::empty());
    }
    let mut i: usize = 0;
    while i + 1 < n
        invariant
            i < n,
            n == entries@.len(),
            entries@[0].hash_prev_hex@ == Seq::<char>::empty(),
            forall|j: int|
                0 <= j && j + 1 <= i ==> #[trigger] entries@[j + 1].hash_prev_hex@ == digest_hex_of(
                    entry_body_text(entries@[j]),
                ),
        decreases n - i,
    {
        let body = entry_body(&entries[i]);
        let expected = digest_hex(body.as_str());
        if !(entries[i + 1].hash_prev_hex == expected) {
            proof {
                assert(!links_ok(entries@)) by {
                    if links_ok(entries@) {
                        assert(entries@[i + 1].hash_prev_hex@ == digest_hex_of(
                            entry_body_text(entries@[i as int]),
                        ));
                    }
                }
            }
            return false;
        }
        i = i + 1;
    }
    true
}

/// Changing an interior entry's body while keeping the successor's stored
/// link breaks the chain: unless the two bodies collide to one digest,
/// the tampered sequence no longer links.
pub proof fn lemma_tamper_detected(s1: Seq<DecisionLogEntry>, s2: Seq<DecisionLogEntry>, i: int)
    requires
        links_ok(s1),
        0 <= i && i + 1 < s1.len(),
        s2.len() == s1.len(),
        s2[i + 1].hash_prev_hex@ == s1[i + 1].hash_prev_hex@,
        digest_hex_of(entry_body_text(s2[i])) != digest_hex_of(entry_body_text(s1[i])),
    ensures
        !links_ok(s2),
{
    assert(s1[i + 1].hash_prev_hex@ == digest_hex_of(entry_body_text(s1[i])));
}

/// Dropping entries off the front of a well-formed chain is always
/// detected: the new first entry still carries a sixteen-character digest
/// where the genesis entry must carry the empty link. (Dropping entries
/// off the *tail* leaves a shorter well-formed chain, as it must in any
/// predecessor-hash design; that is detectable only against an externally
/// held latest digest.)
pub proof fn lemma_front_truncation_detected(s: Seq<DecisionLogEntry>, m: int)
    requires
        chain_wf(s),
        1 <= m < s.len(),
    ensures
        !chain_wf(s.skip(m)),
{
    let s2 = s.skip(m);
    assert(s2[0] == s[m]);
    let j = m - 1;
    assert(s[j + 1].hash_prev_hex@ == digest_hex_of(entry_body_text(s[j])));
    lemma_digest_hex_len(entry_body_text(s[j]));
}

/// Deleting an interior entry breaks the chain: the successor's stored
/// link names the deleted entry's body, and unless that body and the
/// predecessor's collide to one digest, the link no longer matches.
pub proof fn lemma_interior_deletion_detected(
    s: Seq<DecisionLogEntry>,
    s2: Seq<DecisionLogEntry>,
    k: int,
)
    requires
        links_ok(s),
        1 <= k && k + 1 < s.len(),
        s2.len() == s.len() - 1,
        forall|i: int| 0 <= i < k ==> s2[i] == s[i],
        forall|i: int| k <= i < s2.len() ==> s2[i] == s[i + 1],
        digest_hex_of(entry_body_text(s[k])) != digest_hex_of(entry_body_text(s[k - 1])),
    ensures
        !links_ok(s2),
{
    let j = k - 1;
    assert(s[k + 1].hash_prev_hex@ == digest_hex_of(entry_body_text(s[k])));
    assert(!links_ok(s2)) by {
        if links_ok(s2) {
            assert(s2[j + 1].hash_prev_hex@ == digest_hex_of(entry_body_text(s2[j])));
            assert(s2[j + 1] == s[k + 1]);
            assert(s2[j] == s[j]);
        }
    }
}

/// Swapping two neighbouring entries breaks the chain: the moved entry's
/// stored link no longer names its new predecessor's body. Swapping at the
/// very front is detected unconditionally (a genesis link can never equal
/// a digest); elsewhere the two bodies named before and after the swap
/// must not collide to one digest.
pub proof fn lemma_adjacent_swap_detected(
    s: Seq<DecisionLogEntry>,
    s2: Seq<DecisionLogEntry>,
    k: int,
)
    requires
        chain_wf(s),
        0 <= k && k + 1 < s.len(),
        s2.len() == s.len(),
        s2[k] == s[k + 1],
        s2[k + 1] == s[k],
        k == 0 || digest_hex_of(entry_body_text(s[k + 1])) != digest_hex_of(
            entry_body_text(s[k - 1]),
        ),
    ensures
        !chain_wf(s2),
{
    assert(!links_ok(s2)) by {
        if links_ok(s2) {
            assert(s2[k + 1].hash_prev_hex@ == digest_hex_of(entry_body_text(s2[k])));
            assert(s[k].hash_prev_hex@ == digest_hex_of(entry_body_text(s[k + 1])));
            if k == 0 {
                lemma_digest_hex_len(entry_body_text(s[k + 1]));
            } else {
                let j = k - 1;
                assert(s[j + 1].hash_prev_hex@ == digest_hex_of(entry_body_text(s[j])));
            }
        }
    }
}

} // verus!
