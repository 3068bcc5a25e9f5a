use vstd::prelude::*;

verus! {

/// The Keccak-256 digest of a byte string, as `solana_program::keccak`
/// computes it.
pub uninterp spec fn keccak256(data: Seq<u8>) -> Seq<u8>;

/// Hashes `data` with `solana_program::keccak::hashv`, handing it over as a
/// single slice.
///
/// Trusted: the 32 bytes that come back are taken to be the Keccak-256 digest
/// of `data`, a function of the bytes alone. Nothing else is claimed of the
/// digest.
#[verifier::external_body]
pub(crate) fn keccak_hash(data: &[u8]) -> (digest: [u8; 32])
    ensures
        digest@ == keccak256(data@),
{
    solana_program::keccak::hashv(&[data]).to_bytes()
}

} // verus!
