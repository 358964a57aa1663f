use anchor_pricelockr::errors::CustomError;
use anchor_pricelockr::state::TokenAccount;
use anchor_pricelockr::token::transfer;

#[test]
fn transfer_moves_funds() {
    let mut from = TokenAccount { owner: 5, balance: 10 };
    let mut to = TokenAccount { owner: 8, balance: 1 };
    let r = transfer(&mut from, &mut to, 5, 4);
    assert!(r.is_ok());
    assert_eq!(from, TokenAccount { owner: 5, balance: 6 });
    assert_eq!(to, TokenAccount { owner: 8, balance: 5 });
}

#[test]
fn transfer_wrong_authority_fails() {
    let mut from = TokenAccount { owner: 5, balance: 10 };
    let mut to = TokenAccount { owner: 8, balance: 1 };
    let r = transfer(&mut from, &mut to, 6, 4);
    assert_eq!(r, Err(CustomError::TransferFailure));
    assert_eq!(from.balance, 10);
    assert_eq!(to.balance, 1);
}

#[test]
fn transfer_insufficient_balance_fails() {
    let mut from = TokenAccount { owner: 5, balance: 3 };
    let mut to = TokenAccount { owner: 8, balance: 1 };
    let r = transfer(&mut from, &mut to, 5, 4);
    assert_eq!(r, Err(CustomError::TransferFailure));
    assert_eq!(from.balance, 3);
    assert_eq!(to.balance, 1);
}

#[test]
fn transfer_overflowing_destination_fails() {
    let mut from = TokenAccount { owner: 5, balance: 10 };
    let mut to = TokenAccount { owner: 8, balance: u64::MAX - 2 };
    let r = transfer(&mut from, &mut to, 5, 4);
    assert_eq!(r, Err(CustomError::TransferFailure));
    assert_eq!(from.balance, 10);
    assert_eq!(to.balance, u64::MAX - 2);
}
