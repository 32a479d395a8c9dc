//! The asymmetric signature authority over bundle bytes.
//!
//! The keypair is held for the process lifetime. Signing covers the
//! bundle's canonical text — policy, version and creation timestamp — so a
//! replayed older version cannot pass for the current one.

use vstd::prelude::*;

use ed25519_dalek::Signer;

use crate::bundle::HivePolicyBundle;
use crate::textfmt::{hex_decode, hex_of, hex_string, lemma_hex_of_len};

verus! {

#[verifier::external_type_specification]
#[verifier::external_body]
pub struct ExSigningKey(ed25519_dalek::SigningKey);

/// The bundle-signing authority: an Ed25519 keypair held in memory.
pub struct BundleSigner {
    pub signing_key: ed25519_dalek::SigningKey,
}

impl BundleSigner {
    /// Relies on `ed25519_dalek::SigningKey::generate` with
    /// `rand_core::OsRng`: a keypair drawn from the operating system's
    /// randomness. The key is random, so nothing is promised of it.
    #[verifier::external_body]
    pub fn generate() -> BundleSigner {
        BundleSigner { signing_key: ed25519_dalek::SigningKey::generate(&mut rand_core::OsRng) }
    }

    /// Relies on `ed25519_dalek::SigningKey::sign` (via the `Signer`
    /// trait) and `Signature::to_bytes`: an Ed25519 signature is exactly
    /// 64 bytes. The signature depends on the held secret key, which is
    /// opaque here, so no more is stated.
    #[verifier::external_body]
    pub fn sign(&self, payload: &[u8]) -> (r: Vec<u8>)
        ensures
            r@.len() == 64,
    {
        self.signing_key.sign(payload).to_bytes().to_vec()
    }

    /// Relies on `ed25519_dalek::Signature::from_slice`, which accepts
    /// only 64-byte slices, and `SigningKey::verify_strict`, which returns
    /// `Ok` exactly when the signature verifies under this keypair. Whether
    /// it verifies depends on the opaque key, so only well-formedness of an
    /// accepted signature is stated.
    #[verifier::external_body]
    pub(crate) fn verify(&self, payload: &[u8], signature: &[u8]) -> (r: bool)
        ensures
            r ==> signature@.len() == 64,
    {
        match ed25519_dalek::Signature::from_slice(signature) {
            Ok(sig) => self.signing_key.verify_strict(payload, &sig).is_ok(),
            Err(_) => false,
        }
    }
}

/// Signs the bundle's canonical text and stores the signature as 128
/// lowercase hex characters. Everything else in the bundle is unchanged.
pub fn sign_bundle(signer: &BundleSigner, bundle: &mut HivePolicyBundle)
    ensures
        final (bundle).policy == old(bundle).policy,
        final (bundle).version == old(bundle).version,
        final (bundle).created_at == old(bundle).created_at,
        exists|b: Seq<u8>|
            b.len() == 64 && final (bundle).signature_hex@ == hex_of(b),
        final (bundle).signature_hex@.len() == 128,
{
    let text = bundle.canonical_text();
    let sig = signer.sign(text.as_str().as_bytes());
    let sig_hex = hex_string(sig.as_slice());
    proof {
        lemma_hex_of_len(sig@);
    }
    bundle.signature_hex = sig_hex;
}

/// Checks the bundle's stored signature against its canonical text. False
/// whenever the bundle is unsigned or its signature field is not the hex
/// of a 64-byte signature; whether a well-formed signature verifies is the
/// signature authority's verdict.
pub fn signature_matches(signer: &BundleSigner, bundle: &HivePolicyBundle) -> (r: bool)
    ensures
        r ==> exists|b: Seq<u8>|
            b.len() == 64 && bundle.signature_hex@ == hex_of(b),
        r ==> bundle.signature_hex@.len() == 128,
{
    let text = bundle.canonical_text();
    match hex_decode(bundle.signature_hex.as_str()) {
        Some(sig_bytes) => {
            let ok = signer.verify(text.as_str().as_bytes(), sig_bytes.as_slice());
            proof {
                if ok {
                    assert(sig_bytes@.len() == 64 && bundle.signature_hex@ == hex_of(sig_bytes@));
                    lemma_hex_of_len(sig_bytes@);
                }
            }
            ok
        },
        None => false,
    }
}

} // verus!
