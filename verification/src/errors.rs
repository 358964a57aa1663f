//! Error taxonomy of the tournament service.
//!
//! Every failing operation reports one of these named codes and leaves all
//! state exactly as it was: effects are all-or-nothing.

use vstd::prelude::*;

verus! {

/// Why a tournament operation was refused.
#[derive(Clone, Copy, Debug, PartialEq, Eq, Structural)]
pub enum CustomError {
    /// No winner resolved: the roster was empty at draw time, the drawn
    /// address was the sentinel, or a claim arrived before any draw.
    WinnerNotFound,
    /// A second claim on a tournament whose prize was already paid out.
    AlreadyClaimed,
    /// A second draw on a tournament whose winner is already recorded.
    AlreadyDrawn,
    /// `initialize` found the vault or the tournament storage already allocated.
    AlreadyInitialized,
    /// Appending contestants would exceed the fixed roster capacity.
    StorageExhausted,
    /// The caller is not the address this operation is restricted to.
    Unauthorized,
    /// The token-transfer primitive refused: wrong authority, insufficient
    /// balance, or the destination balance would overflow.
    TransferFailure,
}

} // verus!
