//! The Keccak-256 hash, as Ethereum uses it (original padding, not NIST SHA3-256).
use vstd::prelude::*;

verus! {

/// The Keccak-256 digest of `data`.
pub uninterp spec fn keccak256(data: Seq<u8>) -> Seq<u8>;

/// Relies on `anchor_lang::solana_program::keccak::hash` (solana-program's
/// `keccak::hash`, a `sha3::Keccak256` over the bytes off-chain): its 32-byte
/// result depends on the bytes alone.
#[verifier::external_body]
pub(crate) fn keccak256_digest(data: &[u8]) -> (r: [u8; 32])
    ensures
        r@ == keccak256(data@),
{
    anchor_lang::solana_program::keccak::hash(data).0
}

} // verus!
