use vstd::prelude::*;

use crate::state::voting::Voting;
use crate::state::Pubkey;

verus! {

/// Create the platform record: zeroed aggregate counters, not paused,
/// owned by `authority`.
pub fn handler(authority: Pubkey, now: i64) -> (voting: Voting)
    ensures
        voting.authority == authority,
        voting.created_at == now,
        voting.is_paused == false,
        voting.total_polls == 0,
        voting.total_votes == 0,
        voting.total_users == 0,
{
    Voting {
        authority,
        created_at: now,
        is_paused: false,
        total_polls: 0,
        total_votes: 0,
        total_users: 0,
    }
}

} // verus!
