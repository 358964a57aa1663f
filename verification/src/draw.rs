//! Pseudorandom selection of the winning contestant.
//!
//! The seed is the caller's address; its SHA-256 digest's first byte, taken
//! modulo the roster length, names the winning index. The digest is a pure
//! function of the address, so the selection is deterministic for a fixed
//! caller and roster. It is not tamper-resistant: the caller chooses the
//! seed, so the outcome is influenceable until the one-shot draw guard
//! forbids a second attempt.

use vstd::prelude::*;

use crate::state::Tournament;

verus! {

/// The SHA-256 digest of an address's little-endian bytes, as a sequence of
/// 32 bytes. Named, not spelled out: the digest is a function of the address
/// alone, and only the real hash computes it.
pub uninterp spec fn address_digest(address: u64) -> Seq<u8>;

/// Relies on `anchor_lang::solana_program::hash::hash` (SHA-256 over the
/// given bytes, via `solana_sha256_hasher::hash`): the digest depends on the
/// input bytes alone, and `Hash::to_bytes` yields exactly 32 bytes.
#[verifier::external_body]
pub fn digest_of_address(address: u64) -> (r: Vec<u8>)
    ensures
        r@ == address_digest(address),
        r@.len() == 32,
{
    let seed = address.to_le_bytes();
    anchor_lang::solana_program::hash::hash(&seed).to_bytes().to_vec()
}

/// Index drawn for caller `user` on a roster of length `n`: the first digest
/// byte modulo `n`.
pub open spec fn winner_index(user: u64, n: int) -> int
    recommends
        n > 0,
{
    address_digest(user)[0] as int % n
}

/// The address the draw selects for caller `user` on tournament `t`.
pub open spec fn drawn_winner(t: Tournament, user: u64) -> u64
    recommends
        t.roster().len() > 0,
{
    t.roster()[winner_index(user, t.roster().len() as int)]
}

/// Reduce a digest to a roster index: its first byte modulo `n`. Everything
/// past the hash call is ordinary verified arithmetic on the digest bytes.
pub fn select_index(digest: &Vec<u8>, n: usize) -> (r: usize)
    requires
        digest@.len() > 0,
        n > 0,
    ensures
        r == digest@[0] as int % n as int,
        r < n,
{
    (digest[0] as usize) % n
}

} // verus!
