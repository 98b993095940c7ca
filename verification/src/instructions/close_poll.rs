use vstd::prelude::*;

use crate::error::VotingError;
use crate::state::poll::{first_max_index, Poll};
use crate::state::{bytes32_same, PollStatus, Pubkey};

verus! {

/// The notification a successful closure emits, reporting the final
/// tallies and the winning option.
#[derive(Clone, Copy, Debug)]
pub struct PollClosed {
    pub poll: Pubkey,
    pub authority: Pubkey,
    pub total_votes: u64,
    pub top_index: u8,
    pub winner_votes: u64,
    pub unique_voters: u64,
    pub ended_at: i64,
}

/// The failure, if any, that closing the poll reports: the poll must still
/// be open — `Active` or `Pending` — and the caller must be the poll's
/// authority unless the voting window has already ended.
pub open spec fn close_err(poll: Poll, caller: Pubkey, now: i64) -> Option<VotingError> {
    if poll.status != PollStatus::Active && poll.status != PollStatus::Pending {
        Some(VotingError::PollAlreadyClosed)
    } else if !bytes32_same(caller, poll.authority) && now < poll.poll_end_time {
        Some(VotingError::CannotClosePoll)
    } else {
        None
    }
}

/// Close the poll living at `poll_key`: a terminal transition.
///
/// On success the status becomes `Closed`, the tallies are frozen, and the
/// notification reports the winning option: the first index holding the
/// maximum tally, so the earliest option wins ties. On any failure the
/// error [`close_err`] names is reported and the poll is left exactly as it
/// was; in particular a second closure fails with `PollAlreadyClosed`.
#[verifier::loop_isolation(false)]
pub fn handler(poll: &mut Poll, poll_key: Pubkey, caller: Pubkey, now: i64) -> (r: Result<
    PollClosed,
    VotingError,
>)
    requires
        old(poll).wf(),
    ensures
        final(poll).wf(),
        match r {
            Err(e) => {
                &&& close_err(*old(poll), caller, now) == Some(e)
                &&& *final(poll) == *old(poll)
            },
            Ok(event) => {
                let winner = first_max_index(old(poll).vote_counts@);
                &&& close_err(*old(poll), caller, now) is None
                &&& old(poll).same_config(*final(poll))
                &&& final(poll).status == PollStatus::Closed
                &&& final(poll).total_votes == old(poll).total_votes
                &&& final(poll).unique_voters == old(poll).unique_voters
                &&& final(poll).vote_counts@ == old(poll).vote_counts@
                &&& final(poll).nullifier_hashes@ == old(poll).nullifier_hashes@
                &&& final(poll).delegation_nullifiers@ == old(poll).delegation_nullifiers@
                &&& final(poll).updated_at == now
                &&& event.poll == poll_key
                &&& event.authority == old(poll).authority
                &&& event.total_votes == old(poll).total_votes
                &&& event.top_index as int == winner
                &&& event.winner_votes == old(poll).vote_counts@[winner]
                &&& event.unique_voters == old(poll).unique_voters
                &&& event.ended_at == now
            },
        },
{
    match poll.status {
        PollStatus::Active => {},
        PollStatus::Pending => {},
        _ => {
            return Err(VotingError::PollAlreadyClosed);
        },
    }
    let is_authority = crate::state::bytes32_eq(&caller, &poll.authority);
    if !is_authority && now < poll.poll_end_time {
        return Err(VotingError::CannotClosePoll);
    }
    let count_len = poll.vote_counts.len();
    let mut best: usize = 0;
    let mut i: usize = 1;
    while i < count_len
        invariant
            1 <= i <= count_len,
            best < i,
            best as int == first_max_index(poll.vote_counts@.take(i as int)),
        decreases count_len - i,
    {
        proof {
            let s = poll.vote_counts@;
            assert(s.take(i + 1).drop_last() =~= s.take(i as int));
            assert(s.take(i + 1).last() == s[i as int]);
        }
        if poll.vote_counts[i] > poll.vote_counts[best] {
            best = i;
        }
        i += 1;
    }
    proof {
        assert(poll.vote_counts@.take(count_len as int) =~= poll.vote_counts@);
    }
    let winner_votes = poll.vote_counts[best];
    poll.status = PollStatus::Closed;
    poll.updated_at = now;
    let event = PollClosed {
        poll: poll_key,
        authority: poll.authority,
        total_votes: poll.total_votes,
        top_index: best as u8,
        winner_votes,
        unique_voters: poll.unique_voters,
        ended_at: now,
    };
    Ok(event)
}

} // verus!
