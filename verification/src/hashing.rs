//! The hash function behind bid commitments and record digests.

use vstd::prelude::*;

verus! {

/// The Keccak-256 digest of a byte string, as `solana_program::keccak::hash`
/// computes it. The digest is named, not defined: nothing here says which
/// 32 bytes a given input hashes to.
pub uninterp spec fn keccak256(data: Seq<u8>) -> Seq<u8>;

/// Hashes `data` with `solana_program::keccak::hash` and returns the 32 bytes
/// of the digest. Trusted: the result is the Keccak-256 digest of exactly the
/// bytes passed in, and depends on nothing else.
#[verifier::external_body]
pub(crate) fn keccak_hash(data: &[u8]) -> (digest: [u8; 32])
    ensures
        digest@ == keccak256(data@),
{
    solana_program::keccak::hash(data).to_bytes()
}

} // verus!
