use vstd::prelude::*;

use crate::error::VotingError;
use crate::state::badge::{UserBadge, MAX_BADGE_DATA_LEN};
use crate::state::voting::Voting;
use crate::state::{bytes32_same, BadgeType, Pubkey};

verus! {

/// The notification a successful badge award emits.
#[derive(Clone, Debug)]
pub struct BadgeAwarded {
    pub recipient: Pubkey,
    pub badge_type: BadgeType,
    pub data: String,
    pub awarded_at: i64,
}

/// The failure, if any, that awarding a badge reports: only the platform
/// authority may award, and the payload is bounded.
pub open spec fn award_badge_err(voting: Voting, caller: Pubkey, data: Seq<char>) -> Option<
    VotingError,
> {
    if !bytes32_same(caller, voting.authority) {
        Some(VotingError::UnauthorizedAccess)
    } else if data.len() > MAX_BADGE_DATA_LEN {
        Some(VotingError::DataTooLong)
    } else {
        None
    }
}

/// Award a badge to `recipient`, as `caller`, under the platform record
/// `voting`.
///
/// On success the active badge record and the notification are returned; on
/// failure the error [`award_badge_err`] names is reported and nothing is
/// produced.
pub fn handler(
    voting: &Voting,
    caller: Pubkey,
    badge_type: BadgeType,
    recipient: Pubkey,
    data: String,
    now: i64,
) -> (r: Result<(UserBadge, BadgeAwarded), VotingError>)
    ensures
        match r {
            Err(e) => award_badge_err(*voting, caller, data@) == Some(e),
            Ok((badge, event)) => {
                &&& award_badge_err(*voting, caller, data@) is None
                &&& badge.badge_type == badge_type
                &&& badge.data == data
                &&& badge.recipient == recipient
                &&& badge.awarded_at == now
                &&& badge.is_active == true
                &&& event.recipient == recipient
                &&& event.badge_type == badge_type
                &&& event.data@ == data@
                &&& event.awarded_at == now
            },
        },
{
    if !crate::state::bytes32_eq(&caller, &voting.authority) {
        return Err(VotingError::UnauthorizedAccess);
    }
    if data.as_str().unicode_len() > MAX_BADGE_DATA_LEN {
        return Err(VotingError::DataTooLong);
    }
    let event = BadgeAwarded { recipient, badge_type, data: data.clone(), awarded_at: now };
    let badge = UserBadge { badge_type, data, recipient, awarded_at: now, is_active: true };
    Ok((badge, event))
}

} // verus!
