use vstd::prelude::*;

use crate::state::Pubkey;

verus! {

/// The platform-wide record: aggregate counters and the pause switch,
/// passed explicitly to the operations that read or update it.
#[derive(Clone, Debug)]
pub struct Voting {
    pub authority: Pubkey,
    pub created_at: i64,
    pub is_paused: bool,
    pub total_polls: u64,
    pub total_votes: u64,
    pub total_users: u64,
}

} // verus!
