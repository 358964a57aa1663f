//! Ledger records of the tournament service.
//!
//! Addresses are modelled as plain `u64` identifiers; the value
//! [`UNSET_ADDRESS`] is the sentinel that marks a winner slot as not yet
//! drawn. Token accounts are modelled as an owner together with a balance of
//! fungible units.

use vstd::prelude::*;

verus! {

/// Sentinel address: a tournament's winner slot holds it until the draw
/// completes, and no real participant uses it.
pub const UNSET_ADDRESS: u64 = 0;

/// Fixed roster capacity reserved at allocation time.
pub const MAX_CONTESTANTS: usize = 10;

/// Custody record for a staking participant, keyed by the owner's address.
/// `bump` is the authority proof the namespace service derived for it.
#[derive(Clone, Copy, Debug, PartialEq, Eq, Structural)]
pub struct Vault {
    pub owner: u64,
    pub bump: u8,
}

/// One roster entry: a sequential id (starting at 1) and the entrant's
/// wallet address.
#[derive(Clone, Copy, Debug, PartialEq, Eq, Structural)]
pub struct Contestants {
    pub id: u64,
    pub wallet_address: u64,
}

/// Registry of one tournament: roster, prize, winner and claim status.
#[derive(Debug)]
pub struct Tournament {
    pub creator: u64,
    pub bump: u8,
    pub contestants: Vec<Contestants>,
    pub winner: u64,
    pub price_claimed: bool,
    pub price_nft: u64,
}

/// Audit marker created at claim time, keyed by the winner's address.
#[derive(Clone, Copy, Debug, PartialEq, Eq, Structural)]
pub struct Winner {
    pub winner: u64,
    pub bump: u8,
}

/// A token account: who may move its funds, and how many units it holds.
#[derive(Clone, Copy, Debug, PartialEq, Eq, Structural)]
pub struct TokenAccount {
    pub owner: u64,
    pub balance: u64,
}

impl Tournament {
    /// The roster as the sequence of contestant addresses, in append order.
    pub open spec fn roster(self) -> Seq<u64> {
        self.contestants@.map(|i: int, c: Contestants| c.wallet_address)
    }

    /// Contestant ids are exactly 1, 2, ..., n in append order: strictly
    /// increasing from 1 with no gaps.
    pub open spec fn ids_sequential(self) -> bool {
        forall|i: int|
            0 <= i < self.contestants@.len() ==> #[trigger] self.contestants@[i].id == i + 1
    }

    /// Well-formedness: gapless ids, roster within its reserved capacity,
    /// and a prize never claimed before a winner exists.
    pub open spec fn wf(self) -> bool {
        &&& self.ids_sequential()
        &&& self.contestants@.len() <= MAX_CONTESTANTS
        &&& (self.price_claimed ==> self.winner != UNSET_ADDRESS)
    }
}

} // verus!
