use vstd::prelude::*;

use crate::state::{BadgeType, Pubkey};

verus! {

/// Longest accepted badge payload, in characters.
pub const MAX_BADGE_DATA_LEN: usize = 200;

/// A badge awarded to a user by the platform authority.
#[derive(Clone, Debug)]
pub struct UserBadge {
    pub badge_type: BadgeType,
    pub data: String,
    pub recipient: Pubkey,
    pub awarded_at: i64,
    pub is_active: bool,
}

} // verus!
