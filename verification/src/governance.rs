//! Governance transactions and the activation gate.
//!
//! A policy bundle moves from draft to activated only when its
//! multi-signature approval is complete and its signature verifies;
//! activation itself is recorded as a governance transaction on a
//! hash-linked, append-only log of the same shape as the decision log.

use vstd::prelude::*;
use vstd::string::StringExecFns;

use crate::bundle::HivePolicyBundle;
use crate::hashing::{digest_hex, digest_hex_of};
use crate::multisig::{approval_complete, MultiSigApproval};
use crate::signing::{sign_bundle, BundleSigner};
use crate::textfmt::{hex_of, int_dec_of, push_dec_i64};

verus! {

/// What a governance transaction records.
#[derive(Clone, Copy, Debug, PartialEq, Eq, Structural)]
pub enum GovernanceTxKind {
    PolicyBundleCreated,
    PolicyBundleActivated,
    CpEnforcerUpdated,
}

/// The wire label of a transaction kind.
pub open spec fn tx_kind_label(k: GovernanceTxKind) -> Seq<char> {
    match k {
        GovernanceTxKind::PolicyBundleCreated => "policy_bundle_created"@,
        GovernanceTxKind::PolicyBundleActivated => "policy_bundle_activated"@,
        GovernanceTxKind::CpEnforcerUpdated => "cp_enforcer_updated"@,
    }
}

/// The label of a transaction kind.
pub fn tx_kind_label_str(k: GovernanceTxKind) -> (r: &'static str)
    ensures
        r@ == tx_kind_label(k),
{
    match k {
        GovernanceTxKind::PolicyBundleCreated => "policy_bundle_created",
        GovernanceTxKind::PolicyBundleActivated => "policy_bundle_activated",
        GovernanceTxKind::CpEnforcerUpdated => "cp_enforcer_updated",
    }
}

/// One governance record: an identifier, the kind, an opaque JSON payload
/// rendered by the caller, the record instant, and the digest of the
/// predecessor record's body.
#[derive(Clone, Debug)]
pub struct GovernanceTransaction {
    pub id: String,
    pub kind: GovernanceTxKind,
    pub payload_json: String,
    /// Record instant, as seconds since the Unix epoch.
    pub created_at: i64,
    /// Digest of the previous transaction's canonical body; empty for the
    /// first transaction of a chain.
    pub prev_hash_hex: String,
}

/// The canonical body of a transaction: every field but its own link.
pub open spec fn tx_body_text(t: GovernanceTransaction) -> Seq<char> {
    "id="@ + t.id@ + ";kind="@ + tx_kind_label(t.kind) + ";payload="@ + t.payload_json@
        + ";created_at="@ + int_dec_of(t.created_at as int)
}

/// Renders a transaction's canonical body.
pub fn tx_body(t: &GovernanceTransaction) -> (r: String)
    ensures
        r@ == tx_body_text(*t),
{
    let mut out: String = String::new();
    out.append("id=");
    out.append(t.id.as_str());
    out.append(";kind=");
    out.append(tx_kind_label_str(t.kind));
    out.append(";payload=");
    out.append(t.payload_json.as_str());
    out.append(";created_at=");
    push_dec_i64(&mut out, t.created_at);
    proof {
        assert(out@ =~= tx_body_text(*t));
    }
    out
}

/// Every transaction after the first carries the digest of its
/// predecessor's body.
pub open spec fn tx_links_ok(s: Seq<GovernanceTransaction>) -> bool {
    forall|i: int|
        0 <= i && i + 1 < s.len() ==> #[trigger] s[i + 1].prev_hash_hex@ == digest_hex_of(
            tx_body_text(s[i]),
        )
}

/// A well-formed transaction chain.
pub open spec fn tx_chain_wf(s: Seq<GovernanceTransaction>) -> bool {
    &&& s.len() > 0 ==> s[0].prev_hash_hex@ == Seq::<char>::empty()
    &&& tx_links_ok(s)
}

/// The append-only governance log.
pub struct GovernanceLog {
    pub transactions: Vec<GovernanceTransaction>,
}

impl GovernanceLog {
    pub fn new() -> (r: Self)
        ensures
            r.transactions@ == Seq::<GovernanceTransaction>::empty(),
    {
        GovernanceLog { transactions: Vec::new() }
    }

    /// Appends one transaction, linking it to the current tail. Appending
    /// to a well-formed chain keeps it well-formed.
    pub fn append(&mut self, id: String, kind: GovernanceTxKind, payload_json: String, created_at: i64)
        ensures
            final (self).transactions@.len() == old(self).transactions@.len() + 1,
            final (self).transactions@.drop_last() == old(self).transactions@,
            final (self).transactions@.last().id@ == id@,
            final (self).transactions@.last().kind == kind,
            final (self).transactions@.last().payload_json@ == payload_json@,
            final (self).transactions@.last().created_at == created_at,
            final (self).transactions@.last().prev_hash_hex@ == if old(self).transactions@.len()
                == 0 {
                Seq::<char>::empty()
            } else {
                digest_hex_of(tx_body_text(old(self).transactions@.last()))
            },
            tx_chain_wf(old(self).transactions@) ==> tx_chain_wf(final (self).transactions@),
    {
        let n = self.transactions.len();
        let prev_hash_hex: String = if n == 0 {
            String::new()
        } else {
            let body = tx_body(&self.transactions[n - 1]);
            digest_hex(body.as_str())
        };
        let tx = GovernanceTransaction { id, kind, payload_json, created_at, prev_hash_hex };
        let ghost old_txs = self.transactions@;
        let ghost new_txs = self.transactions@.push(tx);
        proof {
            assert(new_txs.drop_last() =~= old_txs);
            if tx_chain_wf(old_txs) {
                assert forall|i: int| 0 <= i && i + 1 < new_txs.len() implies #[trigger] new_txs[i
                    + 1].prev_hash_hex@ == digest_hex_of(tx_body_text(new_txs[i])) by {
                    if i + 1 < old_txs.len() {
                        assert(old_txs[i + 1].prev_hash_hex@ == digest_hex_of(
                            tx_body_text(old_txs[i]),
                        ));
                    } else {
                        assert(new_txs[i] == old_txs.last());
                    }
                }
            }
        }
        self.transactions.push(tx);
    }

    /// The stored transactions, oldest first.
    pub fn transactions(&self) -> (r: &Vec<GovernanceTransaction>)
        ensures
            r == &self.transactions,
    {
        &self.transactions
    }
}

/// Re-folds the whole sequence and checks every link and the genesis
/// transaction: true exactly when the chain is well-formed.
pub fn verify_tx_chain(transactions: &Vec<GovernanceTransaction>) -> (r: bool)
    ensures
        r == tx_chain_wf(transactions@),
{
    let n = transactions.len();
    if n == 0 {
        return true;
    }
    if !transactions[0].prev_hash_hex.as_str().is_empty() {
        proof {
            assert(!(transactions@[0].prev_hash_hex@ =~= Seq::<char>::empty()));
        }
        return false;
    }
    proof {
        assert(transactions@[0].prev_hash_hex@ =~= Seq::<char>::empty());
    }
    let mut i: usize = 0;
    while i + 1 < n
        invariant
            i < n,
            n == transactions@.len(),
            transactions@[0].prev_hash_hex@ == Seq::<char>::empty(),
            forall|j: int|
                0 <= j && j + 1 <= i ==> #[trigger] transactions@[j + 1].prev_hash_hex@
                    == digest_hex_of(tx_body_text(transactions@[j])),
        decreases n - i,
    {
        let body = tx_body(&transactions[i]);
        let expected = digest_hex(body.as_str());
        if !(transactions[i + 1].prev_hash_hex == expected) {
            proof {
                assert(!tx_links_ok(transactions@)) by {
                    if tx_links_ok(transactions@) {
                        assert(transactions@[i + 1].prev_hash_hex@ == digest_hex_of(
                            tx_body_text(transactions@[i as int]),
                        ));
                    }
                }
            }
            return false;
        }
        i = i + 1;
    }
    true
}

/// Why activation was refused.
#[derive(Clone, Copy, Debug, PartialEq, Eq, Structural)]
pub enum ActivationError {
    SignatureInvalid,
    ApprovalIncomplete,
}

/// The activation gate: a bundle activates only when its signature
/// verified and every governance role has signed. On activation the log
/// gains one `PolicyBundleActivated` transaction; a refused activation
/// leaves the log untouched.
pub fn activate_bundle(
    signature_ok: bool,
    approval: &MultiSigApproval,
    log: &mut GovernanceLog,
    id: String,
    payload_json: String,
    created_at: i64,
) -> (r: Result<(), ActivationError>)
    ensures
        !signature_ok ==> r == Result::<(), ActivationError>::Err(
            ActivationError::SignatureInvalid,
        ) && final (log).transactions@ == old(log).transactions@,
        signature_ok && !approval_complete(*approval) ==> r == Result::<(), ActivationError>::Err(
            ActivationError::ApprovalIncomplete,
        ) && final (log).transactions@ == old(log).transactions@,
        signature_ok && approval_complete(*approval) ==> {
            &&& r == Result::<(), ActivationError>::Ok(())
            &&& final (log).transactions@.len() == old(log).transactions@.len() + 1
            &&& final (log).transactions@.drop_last() == old(log).transactions@
            &&& final (log).transactions@.last().kind == GovernanceTxKind::PolicyBundleActivated
            &&& final (log).transactions@.last().id@ == id@
            &&& final (log).transactions@.last().payload_json@ == payload_json@
            &&& final (log).transactions@.last().created_at == created_at
            &&& (tx_chain_wf(old(log).transactions@) ==> tx_chain_wf(final (log).transactions@))
        },
{
    if !signature_ok {
        return Err(ActivationError::SignatureInvalid);
    }
    if !approval.is_complete() {
        return Err(ActivationError::ApprovalIncomplete);
    }
    log.append(id, GovernanceTxKind::PolicyBundleActivated, payload_json, created_at);
    Ok(())
}

/// Activates a bundle under a complete approval, re-signing it first.
/// Re-signing on every activation — not merely on creation — makes the
/// signature cover the exact version and timestamp being activated, so a
/// replayed older bundle cannot pass for the current one. An incomplete
/// approval changes nothing.
pub fn resign_and_activate(
    signer: &BundleSigner,
    bundle: &mut HivePolicyBundle,
    approval: &MultiSigApproval,
    log: &mut GovernanceLog,
    id: String,
    payload_json: String,
    created_at: i64,
) -> (r: Result<(), ActivationError>)
    ensures
        r is Ok <==> approval_complete(*approval),
        !approval_complete(*approval) ==> r == Result::<(), ActivationError>::Err(
            ActivationError::ApprovalIncomplete,
        ) && *final (bundle) == *old(bundle) && final (log).transactions@ == old(
            log,
        ).transactions@,
        approval_complete(*approval) ==> {
            &&& final (bundle).policy == old(bundle).policy
            &&& final (bundle).version == old(bundle).version
            &&& final (bundle).created_at == old(bundle).created_at
            &&& exists|b: Seq<u8>| b.len() == 64 && final (bundle).signature_hex@ == hex_of(b)
            &&& final (log).transactions@.len() == old(log).transactions@.len() + 1
            &&& final (log).transactions@.drop_last() == old(log).transactions@
            &&& final (log).transactions@.last().kind == GovernanceTxKind::PolicyBundleActivated
            &&& (tx_chain_wf(old(log).transactions@) ==> tx_chain_wf(final (log).transactions@))
        },
{
    if !approval.is_complete() {
        return Err(ActivationError::ApprovalIncomplete);
    }
    sign_bundle(signer, bundle);
    log.append(id, GovernanceTxKind::PolicyBundleActivated, payload_json, created_at);
    Ok(())
}

} // verus!
