//! The four tournament operations: initialize, append contestants, draw the
//! winner, claim the reward.
//!
//! Each operation is one atomic transaction: it either performs its whole
//! effect or returns a named error and leaves every record exactly as it
//! was. The tournament moves strictly forward through
//! created -> contestants open -> drawn -> claimed.

use vstd::prelude::*;

use crate::draw::digest_of_address;
use crate::draw::drawn_winner;
use crate::draw::select_index;
use crate::errors::CustomError;
use crate::state::Contestants;
use crate::state::TokenAccount;
use crate::state::Tournament;
use crate::state::Vault;
use crate::state::Winner;
use crate::state::MAX_CONTESTANTS;
use crate::state::UNSET_ADDRESS;
use crate::token::transfer;
use crate::token::transfer_ok;

verus! {

/// When a draw may run: the caller is the vault's registered staking
/// participant, no winner is recorded yet, the roster is non-empty, and the
/// address the seed selects is a real one, not the sentinel.
pub open spec fn draw_permitted(t: Tournament, vault: Vault, user: u64) -> bool {
    &&& user == vault.owner
    &&& t.winner == UNSET_ADDRESS
    &&& t.roster().len() > 0
    &&& drawn_winner(t, user) != UNSET_ADDRESS
}

/// When a claim may run: a winner is recorded, the prize is still unclaimed,
/// and the caller is that winner.
pub open spec fn claim_permitted(t: Tournament, user: u64) -> bool {
    &&& t.winner != UNSET_ADDRESS
    &&& !t.price_claimed
    &&& user == t.winner
}

/// Create the vault (keyed by `user`) and the tournament registry (keyed by
/// `creator`) together: empty roster, prize fixed at `nft` units, winner at
/// the sentinel, nothing claimed. Refused if either record already exists.
pub fn initialize(
    tournament: &mut Option<Tournament>,
    vault: &mut Option<Vault>,
    user: u64,
    creator: u64,
    nft: u64,
    tournament_bump: u8,
    vault_bump: u8,
) -> (r: Result<(), CustomError>)
    ensures
        r is Ok <==> (*old(tournament)) is None && (*old(vault)) is None,
        r is Err ==> r == Err::<(), CustomError>(CustomError::AlreadyInitialized)
            && *final(tournament) == *old(tournament)
            && *final(vault) == *old(vault),
        r is Ok ==> *final(vault) == Some(Vault { owner: user, bump: vault_bump }),
        r is Ok ==> ((*final(tournament)) matches Some(t)
            && t.creator == creator
            && t.bump == tournament_bump
            && t.contestants@.len() == 0
            && t.winner == UNSET_ADDRESS
            && !t.price_claimed
            && t.price_nft == nft
            && t.wf()),
{
    if tournament.is_some() || vault.is_some() {
        return Err(CustomError::AlreadyInitialized);
    }
    *vault = Some(Vault { owner: user, bump: vault_bump });
    *tournament = Some(Tournament {
        creator,
        bump: tournament_bump,
        contestants: Vec::new(),
        winner: UNSET_ADDRESS,
        price_claimed: false,
        price_nft: nft,
    });
    Ok(())
}

/// Append the given addresses to the roster, in order, each under the next
/// sequential id. Only the registered creator may append, only before a
/// winner exists, and only within the reserved capacity; a refused call
/// appends nothing.
pub fn add_contestants(
    tournament: &mut Tournament,
    creator: u64,
    contestants: Vec<u64>,
) -> (r: Result<(), CustomError>)
    requires
        old(tournament).wf(),
    ensures
        r is Ok <==> (creator == old(tournament).creator
            && old(tournament).winner == UNSET_ADDRESS
            && old(tournament).contestants@.len() + contestants@.len() <= MAX_CONTESTANTS),
        r is Ok ==> final(tournament).roster() == old(tournament).roster() + contestants@,
        final(tournament).creator == old(tournament).creator
            && final(tournament).bump == old(tournament).bump
            && final(tournament).winner == old(tournament).winner
            && final(tournament).price_claimed == old(tournament).price_claimed
            && final(tournament).price_nft == old(tournament).price_nft,
        final(tournament).wf(),
        r is Err ==> *final(tournament) == *old(tournament),
        creator != old(tournament).creator
            ==> r == Err::<(), CustomError>(CustomError::Unauthorized),
        creator == old(tournament).creator && old(tournament).winner != UNSET_ADDRESS
            ==> r == Err::<(), CustomError>(CustomError::AlreadyDrawn),
        creator == old(tournament).creator && old(tournament).winner == UNSET_ADDRESS
            && old(tournament).contestants@.len() + contestants@.len() > MAX_CONTESTANTS
            ==> r == Err::<(), CustomError>(CustomError::StorageExhausted),
{
    if creator != tournament.creator {
        return Err(CustomError::Unauthorized);
    }
    if tournament.winner != UNSET_ADDRESS {
        return Err(CustomError::AlreadyDrawn);
    }
    let n_new = contestants.len();
    let n_old = tournament.contestants.len();
    if n_new > MAX_CONTESTANTS || n_old > MAX_CONTESTANTS - n_new {
        return Err(CustomError::StorageExhausted);
    }
    let mut i: usize = 0;
    while i < n_new
        invariant
            i <= n_new,
            n_new == contestants@.len(),
            n_old == old(tournament).contestants@.len(),
            n_old + n_new <= MAX_CONTESTANTS,
            tournament.contestants@.len() == n_old + i,
            forall|j: int| 0 <= j < n_old
                ==> #[trigger] tournament.contestants@[j] == old(tournament).contestants@[j],
            forall|j: int| n_old <= j < n_old + i
                ==> #[trigger] tournament.contestants@[j].wallet_address == contestants@[j - n_old],
            tournament.ids_sequential(),
            tournament.creator == old(tournament).creator,
            tournament.bump == old(tournament).bump,
            tournament.winner == old(tournament).winner,
            tournament.price_claimed == old(tournament).price_claimed,
            tournament.price_nft == old(tournament).price_nft,
        decreases n_new - i,
    {
        let id = tournament.contestants.len() as u64 + 1;
        let entry = Contestants { id, wallet_address: contestants[i] };
        tournament.contestants.push(entry);
        i = i + 1;
    }
    proof {
        assert(tournament.roster() =~= old(tournament).roster() + contestants@);
    }
    Ok(())
}

/// Draw the winner: hash the caller's address, take the first digest byte
/// modulo the roster length, record the contestant at that index as winner,
/// and escrow the prize from the caller's token account into the vault's.
/// The draw runs at most once per tournament; a refused call changes
/// nothing and moves no funds.
pub fn tournament_result(
    tournament: &mut Tournament,
    vault: &Vault,
    vault_ata: &mut TokenAccount,
    user_ata: &mut TokenAccount,
    user: u64,
) -> (r: Result<(), CustomError>)
    requires
        old(tournament).wf(),
    ensures
        r is Ok <==> draw_permitted(*old(tournament), *vault, user)
            && transfer_ok(*old(user_ata), *old(vault_ata), user, old(tournament).price_nft),
        r is Ok ==> final(tournament).winner == drawn_winner(*old(tournament), user),
        r is Ok ==> *final(user_ata) == (TokenAccount {
            owner: old(user_ata).owner,
            balance: (old(user_ata).balance - old(tournament).price_nft) as u64,
        }),
        r is Ok ==> *final(vault_ata) == (TokenAccount {
            owner: old(vault_ata).owner,
            balance: (old(vault_ata).balance + old(tournament).price_nft) as u64,
        }),
        final(tournament).contestants@ == old(tournament).contestants@
            && final(tournament).creator == old(tournament).creator
            && final(tournament).bump == old(tournament).bump
            && final(tournament).price_claimed == old(tournament).price_claimed
            && final(tournament).price_nft == old(tournament).price_nft,
        final(tournament).wf(),
        r is Err ==> *final(tournament) == *old(tournament)
            && *final(user_ata) == *old(user_ata)
            && *final(vault_ata) == *old(vault_ata),
        user != vault.owner ==> r == Err::<(), CustomError>(CustomError::Unauthorized),
        user == vault.owner && old(tournament).winner != UNSET_ADDRESS
            ==> r == Err::<(), CustomError>(CustomError::AlreadyDrawn),
        user == vault.owner && old(tournament).winner == UNSET_ADDRESS
            && old(tournament).roster().len() == 0
            ==> r == Err::<(), CustomError>(CustomError::WinnerNotFound),
        user == vault.owner && old(tournament).winner == UNSET_ADDRESS
            && old(tournament).roster().len() > 0
            && drawn_winner(*old(tournament), user) == UNSET_ADDRESS
            ==> r == Err::<(), CustomError>(CustomError::WinnerNotFound),
        draw_permitted(*old(tournament), *vault, user)
            && !transfer_ok(*old(user_ata), *old(vault_ata), user, old(tournament).price_nft)
            ==> r == Err::<(), CustomError>(CustomError::TransferFailure),
{
    if user != vault.owner {
        return Err(CustomError::Unauthorized);
    }
    if tournament.winner != UNSET_ADDRESS {
        return Err(CustomError::AlreadyDrawn);
    }
    let n = tournament.contestants.len();
    if n == 0 {
        return Err(CustomError::WinnerNotFound);
    }
    let digest = digest_of_address(user);
    let rn_index = select_index(&digest, n);
    let winner = tournament.contestants[rn_index].wallet_address;
    proof {
        assert(old(tournament).roster()[rn_index as int]
            == old(tournament).contestants@[rn_index as int].wallet_address);
    }
    if winner == UNSET_ADDRESS {
        return Err(CustomError::WinnerNotFound);
    }
    match transfer(user_ata, vault_ata, user, tournament.price_nft) {
        Ok(()) => {},
        Err(e) => {
            return Err(e);
        },
    }
    tournament.winner = winner;
    Ok(())
}

/// Pay the escrowed prize out: only the recorded winner, only after a draw,
/// and only once. On success the vault's token account pays the winner's,
/// the tournament is marked claimed, and an audit record for the winner is
/// written; a refused call changes nothing and moves no funds.
pub fn claim_reward(
    tournament: &mut Tournament,
    vault: &Vault,
    winner: &mut Option<Winner>,
    winner_bump: u8,
    vault_ata: &mut TokenAccount,
    winner_ata: &mut TokenAccount,
    user: u64,
) -> (r: Result<(), CustomError>)
    requires
        old(tournament).wf(),
    ensures
        r is Ok <==> claim_permitted(*old(tournament), user)
            && transfer_ok(*old(vault_ata), *old(winner_ata), vault.owner, old(tournament).price_nft),
        r is Ok ==> final(tournament).price_claimed,
        r is Ok ==> *final(winner) == Some(Winner { winner: user, bump: winner_bump }),
        r is Ok ==> *final(vault_ata) == (TokenAccount {
            owner: old(vault_ata).owner,
            balance: (old(vault_ata).balance - old(tournament).price_nft) as u64,
        }),
        r is Ok ==> *final(winner_ata) == (TokenAccount {
            owner: old(winner_ata).owner,
            balance: (old(winner_ata).balance + old(tournament).price_nft) as u64,
        }),
        final(tournament).contestants@ == old(tournament).contestants@
            && final(tournament).creator == old(tournament).creator
            && final(tournament).bump == old(tournament).bump
            && final(tournament).winner == old(tournament).winner
            && final(tournament).price_nft == old(tournament).price_nft,
        final(tournament).wf(),
        r is Err ==> *final(tournament) == *old(tournament)
            && *final(winner) == *old(winner)
            && *final(vault_ata) == *old(vault_ata)
            && *final(winner_ata) == *old(winner_ata),
        old(tournament).winner == UNSET_ADDRESS
            ==> r == Err::<(), CustomError>(CustomError::WinnerNotFound),
        old(tournament).winner != UNSET_ADDRESS && old(tournament).price_claimed
            ==> r == Err::<(), CustomError>(CustomError::AlreadyClaimed),
        old(tournament).winner != UNSET_ADDRESS && !old(tournament).price_claimed
            && user != old(tournament).winner
            ==> r == Err::<(), CustomError>(CustomError::Unauthorized),
        claim_permitted(*old(tournament), user)
            && !transfer_ok(*old(vault_ata), *old(winner_ata), vault.owner, old(tournament).price_nft)
            ==> r == Err::<(), CustomError>(CustomError::TransferFailure),
{
    if tournament.winner == UNSET_ADDRESS {
        return Err(CustomError::WinnerNotFound);
    }
    if tournament.price_claimed {
        return Err(CustomError::AlreadyClaimed);
    }
    if user != tournament.winner {
        return Err(CustomError::Unauthorized);
    }
    match transfer(vault_ata, winner_ata, vault.owner, tournament.price_nft) {
        Ok(()) => {},
        Err(e) => {
            return Err(e);
        },
    }
    tournament.price_claimed = true;
    *winner = Some(Winner { winner: user, bump: winner_bump });
    Ok(())
}

} // verus!
