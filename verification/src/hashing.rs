//! The digest over canonical record text that links the audit chains.
//!
//! A 64-bit Fowler–Noll–Vo fold over the UTF-8 bytes of the canonical
//! record, rendered as sixteen lowercase hex characters. The fold is fully
//! defined here, so chain verification is a pure re-fold over the stored
//! sequence and needs no outside authority.

use vstd::prelude::*;
use vstd::string::StringSliceAdditionalSpecFns;
use vstd::utf8::encode_utf8;

use crate::textfmt::{hex_of, lemma_hex_of_len};

verus! {

pub const FNV_OFFSET_BASIS: u64 = 0xcbf29ce484222325;

pub const FNV_PRIME: u64 = 0x100000001b3;

/// One fold step: mix a byte into the running digest.
pub open spec fn fnv1a_step(h: u64, b: u8) -> u64 {
    (h ^ (b as u64)).wrapping_mul(FNV_PRIME)
}

/// The fold continued from digest `h` over the remaining bytes.
pub open spec fn fnv1a_from(h: u64, bytes: Seq<u8>) -> u64
    decreases bytes.len(),
{
    if bytes.len() == 0 {
        h
    } else {
        fnv1a_from(fnv1a_step(h, bytes[0]), bytes.drop_first())
    }
}

/// The digest of a byte string.
pub open spec fn fnv1a(bytes: Seq<u8>) -> u64 {
    fnv1a_from(FNV_OFFSET_BASIS, bytes)
}

/// The big-endian byte rendering of a 64-bit digest.
pub open spec fn be_bytes_of_u64(n: u64) -> Seq<u8> {
    seq![
        ((n as int) / 0x100000000000000 % 256) as u8,
        ((n as int) / 0x1000000000000 % 256) as u8,
        ((n as int) / 0x10000000000 % 256) as u8,
        ((n as int) / 0x100000000 % 256) as u8,
        ((n as int) / 0x1000000 % 256) as u8,
        ((n as int) / 0x10000 % 256) as u8,
        ((n as int) / 0x100 % 256) as u8,
        ((n as int) % 256) as u8,
    ]
}

/// The hex digest of a character string: the fold over its UTF-8 bytes,
/// rendered as sixteen hex characters.
pub open spec fn digest_hex_of(text: Seq<char>) -> Seq<char> {
    hex_of(be_bytes_of_u64(fnv1a(encode_utf8(text))))
}

/// A digest always renders as exactly sixteen characters — in particular,
/// never as the empty genesis link.
pub proof fn lemma_digest_hex_len(text: Seq<char>)
    ensures
        digest_hex_of(text).len() == 16,
{
    lemma_hex_of_len(be_bytes_of_u64(fnv1a(encode_utf8(text))));
}

/// The digest of a byte slice.
pub fn fnv1a_bytes(bytes: &[u8]) -> (r: u64)
    ensures
        r == fnv1a(bytes@),
{
    let n = bytes.len();
    let mut h: u64 = FNV_OFFSET_BASIS;
    let mut i: usize = 0;
    proof {
        assert(bytes@.skip(0int) =~= bytes@);
    }
    while i < n
        invariant
            i <= n,
            n == bytes@.len(),
            fnv1a_from(h, bytes@.skip(i as int)) == fnv1a(bytes@),
        decreases n - i,
    {
        let b = bytes[i];
        proof {
            assert(bytes@.skip(i as int).drop_first() =~= bytes@.skip(i + 1int));
            assert(bytes@.skip(i as int)[0] == b);
        }
        h = (h ^ (b as u64)).wrapping_mul(FNV_PRIME);
        i = i + 1;
    }
    proof {
        assert(bytes@.skip(n as int) =~= Seq::<u8>::empty());
    }
    h
}

/// The hex digest of a string's canonical text.
pub fn digest_hex(text: &str) -> (r: String)
    ensures
        r@ == digest_hex_of(text@),
{
    let h = fnv1a_bytes(text.as_bytes());
    let b0: u8 = ((h / 0x100000000000000u64) % 256) as u8;
    let b1: u8 = ((h / 0x1000000000000u64) % 256) as u8;
    let b2: u8 = ((h / 0x10000000000u64) % 256) as u8;
    let b3: u8 = ((h / 0x100000000u64) % 256) as u8;
    let b4: u8 = ((h / 0x1000000u64) % 256) as u8;
    let b5: u8 = ((h / 0x10000u64) % 256) as u8;
    let b6: u8 = ((h / 0x100u64) % 256) as u8;
    let b7: u8 = (h % 256) as u8;
    let digest: [u8; 8] = [b0, b1, b2, b3, b4, b5, b6, b7];
    proof {
        assert(digest@ =~= be_bytes_of_u64(h));
    }
    crate::textfmt::hex_string(digest.as_slice())
}

} // verus!
