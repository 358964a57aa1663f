//! The token-transfer primitive.
//!
//! Moves fungible units between two token accounts after checking that the
//! given authority may spend from the source. On the chain this step is the
//! runtime's transfer instruction; here it is the same all-or-nothing rule
//! over modelled balances: wrong authority, an insufficient source balance,
//! or a destination balance that would overflow refuse the transfer and
//! leave both accounts untouched.

use vstd::prelude::*;

use crate::errors::CustomError;
use crate::state::TokenAccount;

verus! {

/// When the transfer primitive accepts: the authority owns the source, the
/// source covers the amount, and the destination balance stays representable.
pub open spec fn transfer_ok(from: TokenAccount, to: TokenAccount, authority: u64, amount: u64) -> bool {
    &&& from.owner == authority
    &&& from.balance >= amount
    &&& to.balance + amount <= u64::MAX
}

/// Move `amount` units from `from` to `to` under `authority`, atomically.
pub fn transfer(from: &mut TokenAccount, to: &mut TokenAccount, authority: u64, amount: u64) -> (r: Result<(), CustomError>)
    ensures
        r is Ok <==> transfer_ok(*old(from), *old(to), authority, amount),
        r is Ok ==> *final(from) == (TokenAccount {
            owner: old(from).owner,
            balance: (old(from).balance - amount) as u64,
        }),
        r is Ok ==> *final(to) == (TokenAccount {
            owner: old(to).owner,
            balance: (old(to).balance + amount) as u64,
        }),
        r is Err ==> r == Err::<(), CustomError>(CustomError::TransferFailure)
            && *final(from) == *old(from)
            && *final(to) == *old(to),
{
    if from.owner != authority {
        return Err(CustomError::TransferFailure);
    }
    if from.balance < amount {
        return Err(CustomError::TransferFailure);
    }
    if to.balance > u64::MAX - amount {
        return Err(CustomError::TransferFailure);
    }
    from.balance = from.balance - amount;
    to.balance = to.balance + amount;
    Ok(())
}

} // verus!
