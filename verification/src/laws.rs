//! Laws of the tournament service, stated and proved over the same spec
//! functions the operations' contracts use.

use vstd::prelude::*;

use crate::draw::drawn_winner;
use crate::draw::winner_index;
use crate::service::claim_permitted;
use crate::service::draw_permitted;
use crate::state::Tournament;
use crate::state::Vault;
use crate::state::UNSET_ADDRESS;

verus! {

/// Determinism of the draw: for one caller and equal rosters, the draw
/// selects the same index and the same winner, however often it is run.
pub proof fn lemma_draw_deterministic(t1: Tournament, t2: Tournament, user: u64)
    requires
        t1.roster() == t2.roster(),
        t1.roster().len() > 0,
    ensures
        drawn_winner(t1, user) == drawn_winner(t2, user),
{
}

/// For any roster of size n >= 1 the selected index lies in [0, n).
pub proof fn lemma_winner_index_in_range(user: u64, n: int)
    requires
        n > 0,
    ensures
        0 <= winner_index(user, n) < n,
{
}

/// A draw on an empty roster is never permitted: no index can be computed,
/// so no winner is set and no funds move.
pub proof fn lemma_empty_roster_draw_refused(t: Tournament, vault: Vault, user: u64)
    requires
        t.roster().len() == 0,
    ensures
        !draw_permitted(t, vault, user),
{
}

/// The draw is one-shot: once a winner is recorded, no further draw is
/// permitted for any caller, so the winner is never overwritten and the
/// caller is never charged twice.
pub proof fn lemma_draw_one_shot(t: Tournament, vault: Vault, user: u64)
    requires
        t.winner != UNSET_ADDRESS,
    ensures
        !draw_permitted(t, vault, user),
{
}

/// The claim is one-shot: once the prize is claimed, no further claim is
/// permitted for any caller, so no second transfer occurs.
pub proof fn lemma_claim_one_shot(t: Tournament, user: u64)
    requires
        t.price_claimed,
    ensures
        !claim_permitted(t, user),
{
}

/// Only the recorded winner may claim: any other caller is refused, and no
/// transfer occurs.
pub proof fn lemma_claim_only_winner(t: Tournament, user: u64)
    requires
        user != t.winner,
    ensures
        !claim_permitted(t, user),
{
}

/// The roster is gapless: in a well-formed tournament the ids read exactly
/// 1, 2, ..., n in append order, so appends never leave a hole and never
/// renumber an earlier entry.
pub proof fn lemma_ids_gapless(t: Tournament)
    requires
        t.wf(),
    ensures
        forall|i: int|
            0 <= i < t.contestants@.len() ==> #[trigger] t.contestants@[i].id == i + 1,
{
}

} // verus!
