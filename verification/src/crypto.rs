//! The cryptographic provider: digest, signature check and identity hash.
//!
//! The digest is a truncate-or-pad copy and the signature check is structural
//! only: neither is a cryptographic primitive. Both are stated exactly, so that
//! everything built on them can be tested byte for byte, and both have to be
//! replaced before the engine guards real funds.

use vstd::prelude::*;
use vstd::slice::slice_subrange;
use crate::bytes::{bytes_equal, read_array};
use crate::codes::{PUBKEY_SIZE, SIGNATURE_BLOCK_SIZE, SIGNATURE_SIZE};

verus! {

/// The digest of `data`: its first 32 bytes, padded with zeros.
pub open spec fn digest_of(data: Seq<u8>) -> Seq<u8> {
    Seq::new(32, |i: int| if i < data.len() { data[i] } else { 0u8 })
}

/// The identity hash of a public key: the first 20 bytes of its digest.
pub open spec fn identity_hash(pubkey: Seq<u8>) -> Seq<u8> {
    digest_of(pubkey).subrange(0, 20)
}

/// Some byte of `s` at a position in `lo..hi` is not zero.
pub open spec fn has_nonzero(s: Seq<u8>, lo: int, hi: int) -> bool {
    exists|i: int| lo <= i < hi && #[trigger] s[i] != 0
}

/// What the signature check accepts: a 33-byte key that starts with 2 or 3 and
/// a 64-byte signature whose halves `r` and `s` are both non-zero. The digest
/// takes no part in it.
pub open spec fn signature_accepted(pubkey: Seq<u8>, signature: Seq<u8>, digest: Seq<u8>) -> bool {
    &&& pubkey.len() == 33
    &&& signature.len() == 64
    &&& (pubkey[0] == 2 || pubkey[0] == 3)
    &&& has_nonzero(signature, 0, 32)
    &&& has_nonzero(signature, 32, 64)
}

/// A witness proves the identity `expected`: it starts with a public key whose
/// identity hash is `expected` and goes on with a signature that is accepted
/// for that key.
pub open spec fn signed_by(expected: Seq<u8>, witness: Seq<u8>, digest: Seq<u8>) -> bool {
    &&& witness.len() >= 97
    &&& identity_hash(witness.subrange(0, 33)) == expected
    &&& signature_accepted(witness.subrange(0, 33), witness.subrange(33, 97), digest)
}

/// Writes the digest of `data` to `output`.
pub fn blake2b_hash(data: &[u8], output: &mut [u8; 32])
    ensures
        final(output)@ == digest_of(data@),
{
    let mut i: usize = 0;
    while i < 32
        invariant
            i <= 32,
            forall|k: int| 0 <= k < i ==> output@[k] == digest_of(data@)[k],
        decreases 32 - i,
    {
        if i < data.len() {
            output[i] = data[i];
        } else {
            output[i] = 0;
        }
        i += 1;
    }
    assert(output@ =~= digest_of(data@));
}

/// Tells whether some byte of `s` in `lo..hi` is not zero.
fn any_nonzero(s: &[u8], lo: usize, hi: usize) -> (found: bool)
    requires
        lo <= hi <= s.len(),
    ensures
        found == has_nonzero(s@, lo as int, hi as int),
{
    let mut i: usize = lo;
    while i < hi
        invariant
            lo <= i <= hi <= s.len(),
            forall|k: int| lo <= k < i ==> s@[k] == 0,
        decreases hi - i,
    {
        if s[i] != 0 {
            return true;
        }
        i += 1;
    }
    false
}

/// Checks a signature against a public key and a message digest.
pub fn verify_secp256k1_signature(pubkey: &[u8], signature: &[u8], message_hash: &[u8; 32]) -> (ok: bool)
    ensures
        ok == signature_accepted(pubkey@, signature@, message_hash@),
{
    if pubkey.len() != PUBKEY_SIZE || signature.len() != SIGNATURE_SIZE {
        return false;
    }
    if !any_nonzero(signature, 0, 64) {
        assert(!has_nonzero(signature@, 0, 32));
        return false;
    }
    if pubkey[0] != 2 && pubkey[0] != 3 {
        return false;
    }
    if !any_nonzero(signature, 0, 32) {
        return false;
    }
    any_nonzero(signature, 32, 64)
}

/// Derives the identity hash of a public key.
pub fn compute_pubkey_hash(pubkey: &[u8; 33]) -> (hash: [u8; 20])
    ensures
        hash@ == identity_hash(pubkey@),
{
    let mut digest = [0u8; 32];
    blake2b_hash(pubkey.as_slice(), &mut digest);
    read_array::<20>(digest.as_slice(), 0)
}

/// Checks that a witness proves the identity `expected_hash`.
pub fn verify_signature_by_hash(
    expected_hash: &[u8; 20],
    witness_data: &[u8],
    message_hash: &[u8; 32],
) -> (ok: bool)
    ensures
        ok == signed_by(expected_hash@, witness_data@, message_hash@),
{
    if witness_data.len() < SIGNATURE_BLOCK_SIZE {
        return false;
    }
    let pubkey = read_array::<33>(witness_data, 0);
    let computed_hash = compute_pubkey_hash(&pubkey);
    if !bytes_equal(computed_hash.as_slice(), expected_hash.as_slice()) {
        return false;
    }
    let signature = slice_subrange(witness_data, 33, 97);
    verify_secp256k1_signature(pubkey.as_slice(), signature, message_hash)
}

} // verus!
