//! The hash function of the wheel: Keccak-256.

use vstd::prelude::*;

verus! {

/// The Keccak-256 digest of a byte string.
///
/// The function is named, not defined: its value on a given input is
/// whatever the hash implementation computes.
pub uninterp spec fn keccak256(data: Seq<u8>) -> Seq<u8>;

/// Hashes `data` with `anchor_lang::solana_program::keccak::hash`.
///
/// Trusted, not proved: the 32 bytes returned are the Keccak-256 digest of
/// `data`, a function of those bytes and of nothing else.
#[allow(deprecated)]
#[verifier::external_body]
pub(crate) fn keccak256_digest(data: &[u8]) -> (digest: [u8; 32])
    ensures
        digest@ == keccak256(data@),
{
    anchor_lang::solana_program::keccak::hash(data).to_bytes()
}

} // verus!
