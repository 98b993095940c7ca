use vstd::prelude::*;

use crate::error::VotingError;
use crate::state::poll::{lemma_sum_weights_update, Poll};
use crate::state::vote::Vote;
use crate::state::{bytes32_same, PollType, Pubkey};
use crate::utils::hash::{hash_zk_proof, sha256_of};
use crate::utils::quadratic::{curve_cost, quadratic_cost_err};
use crate::utils::{calculate_quadratic_cost, verify_zk_proof};
use crate::utils::zk_verification::zk_proof_err;

verus! {

/// The notification a successful recast emits.
#[derive(Clone, Copy, Debug)]
pub struct VoteRecast {
    pub poll: Pubkey,
    pub timestamp: i64,
    pub nullifier_hash: [u8; 32],
    pub old_vote_weight: u64,
    pub new_vote_choice: u8,
    pub old_vote_choice: u8,
    pub new_vote_weight: u64,
}

/// The failure, if any, that computing a recast's counted weight reports.
/// A quadratic poll must carry its parameters and be handed an explicit
/// positive weight, whose cost under the configured curve must stay within
/// the credits ceiling; other kinds always count one.
pub open spec fn recast_weight_err(poll: Poll, new_vote_weight: Option<u64>) -> Option<
    VotingError,
> {
    if poll.poll_type == PollType::Quadratic {
        match poll.quadratic_parameters {
            None => Some(VotingError::InvalidProgramState),
            Some(q) => match new_vote_weight {
                None => Some(VotingError::InvalidVoteWeight),
                Some(w) => match quadratic_cost_err(q.credit_cost_curve@, w) {
                    Some(e) => Some(e),
                    None => if curve_cost(q.credit_cost_curve@, w as int) > q.max_credits {
                        Some(VotingError::InsufficientCredits)
                    } else {
                        None
                    },
                },
            },
        }
    } else {
        None
    }
}

/// The weight a recast records: the explicit weight for a quadratic poll,
/// one for every other kind.
pub open spec fn recast_counted_weight(poll: Poll, new_vote_weight: Option<u64>) -> u64 {
    if poll.poll_type == PollType::Quadratic {
        match new_vote_weight {
            Some(w) => w,
            None => 1u64,
        }
    } else {
        1u64
    }
}

/// The failure, if any, that recasting reports, in the order the checks
/// run: the nullifier must match the vote record, recasting must be
/// allowed and inside any configured window, the poll active, the new
/// choice in range, the proof accepted, the new weight payable, and the
/// tally adjustment must neither underflow — which would signal a corrupt
/// ledger — nor overflow.
pub open spec fn recast_err(
    poll: Poll,
    vote: Vote,
    new_vote_choice: u8,
    zk_proof: Seq<u8>,
    nullifier_hash: [u8; 32],
    public_signals: Seq<Seq<char>>,
    new_vote_weight: Option<u64>,
    now: i64,
) -> Option<VotingError> {
    if !bytes32_same(vote.nullifier_hash, nullifier_hash) {
        Some(VotingError::InvalidNullifierHash)
    } else if !poll.allow_recast {
        Some(VotingError::RecastNotAllowed)
    } else if poll.recast_vote_window matches Some(w) && poll.poll_begin_time + w > i64::MAX {
        Some(VotingError::ArithmeticOverflow)
    } else if poll.recast_vote_window matches Some(w) && now > poll.poll_begin_time + w {
        Some(VotingError::RecastWindowExpired)
    } else if now > poll.poll_end_time {
        Some(VotingError::VotingEnded)
    } else if !poll.spec_is_active(now) {
        Some(VotingError::PollNotActive)
    } else if new_vote_choice as int >= poll.options@.len() {
        Some(VotingError::InvalidVoteChoice)
    } else if zk_proof_err(zk_proof, public_signals, poll.eligibility_criteria) is Some {
        zk_proof_err(zk_proof, public_signals, poll.eligibility_criteria)
    } else if recast_weight_err(poll, new_vote_weight) is Some {
        recast_weight_err(poll, new_vote_weight)
    } else {
        let new_weight = recast_counted_weight(poll, new_vote_weight);
        let old_choice = vote.vote_choice as int;
        let old_weight = vote.vote_weight;
        if poll.vote_counts@[old_choice] - old_weight < 0 {
            Some(VotingError::ArithmeticUnderflow)
        } else if poll.total_votes - old_weight < 0 {
            Some(VotingError::ArithmeticUnderflow)
        } else if poll.vote_counts@.update(
            old_choice,
            (poll.vote_counts@[old_choice] - old_weight) as u64,
        )[new_vote_choice as int] + new_weight > u64::MAX {
            Some(VotingError::ArithmeticOverflow)
        } else if poll.total_votes - old_weight + new_weight > u64::MAX {
            Some(VotingError::ArithmeticOverflow)
        } else {
            None
        }
    }
}

/// Recast a previously cast vote: move its counted weight from the old
/// choice to the new one.
///
/// On success the old weight leaves `vote_counts[old choice]` and
/// `total_votes`, the new weight enters `vote_counts[new choice]` and
/// `total_votes`, and the vote record's choice, weight, proof hash and
/// timestamp are overwritten — no new record is created, no nullifier is
/// consumed, and `unique_voters` does not change. On any failure the error
/// [`recast_err`] names is reported and poll and vote are left exactly as
/// they were.
pub fn handler(
    poll: &mut Poll,
    vote: &mut Vote,
    poll_key: Pubkey,
    new_vote_choice: u8,
    zk_proof: Vec<u8>,
    nullifier_hash: [u8; 32],
    public_signals: Vec<String>,
    new_vote_weight: Option<u64>,
    now: i64,
) -> (r: Result<VoteRecast, VotingError>)
    requires
        old(poll).wf(),
        (old(vote).vote_choice as int) < old(poll).vote_counts@.len(),
    ensures
        final(poll).wf(),
        match r {
            Err(e) => {
                &&& recast_err(
                    *old(poll),
                    *old(vote),
                    new_vote_choice,
                    zk_proof@,
                    nullifier_hash,
                    public_signals.deep_view(),
                    new_vote_weight,
                    now,
                ) == Some(e)
                &&& *final(poll) == *old(poll)
                &&& *final(vote) == *old(vote)
            },
            Ok(event) => {
                let new_weight = recast_counted_weight(*old(poll), new_vote_weight);
                let old_choice = old(vote).vote_choice as int;
                let old_weight = old(vote).vote_weight;
                &&& recast_err(
                    *old(poll),
                    *old(vote),
                    new_vote_choice,
                    zk_proof@,
                    nullifier_hash,
                    public_signals.deep_view(),
                    new_vote_weight,
                    now,
                ) is None
                &&& old(poll).same_config(*final(poll))
                &&& final(poll).status == old(poll).status
                &&& final(poll).vote_counts@ == old(poll).vote_counts@.update(
                    old_choice,
                    (old(poll).vote_counts@[old_choice] - old_weight) as u64,
                ).update(
                    new_vote_choice as int,
                    (old(poll).vote_counts@.update(
                        old_choice,
                        (old(poll).vote_counts@[old_choice] - old_weight) as u64,
                    )[new_vote_choice as int] + new_weight) as u64,
                )
                &&& final(poll).total_votes == old(poll).total_votes - old_weight + new_weight
                &&& final(poll).unique_voters == old(poll).unique_voters
                &&& final(poll).nullifier_hashes@ == old(poll).nullifier_hashes@
                &&& final(poll).delegation_nullifiers@ == old(poll).delegation_nullifiers@
                &&& final(poll).updated_at == now
                &&& (new_vote_choice as int != old_choice ==> {
                    &&& final(poll).vote_counts@[old_choice] == old(poll).vote_counts@[old_choice]
                        - old_weight
                    &&& final(poll).vote_counts@[new_vote_choice as int]
                        == old(poll).vote_counts@[new_vote_choice as int] + new_weight
                })
                &&& (new_vote_choice as int == old_choice ==> final(poll).vote_counts@[old_choice]
                    == old(poll).vote_counts@[old_choice] - old_weight + new_weight)
                &&& final(vote).poll == old(vote).poll
                &&& final(vote).nullifier_hash == old(vote).nullifier_hash
                &&& final(vote).vote_choice == new_vote_choice
                &&& final(vote).zk_proof_hash@ == sha256_of(zk_proof@)
                &&& final(vote).timestamp == now
                &&& final(vote).delegate_from == old(vote).delegate_from
                &&& final(vote).delegate_to == old(vote).delegate_to
                &&& final(vote).vote_weight == new_weight
                &&& event.poll == poll_key
                &&& event.timestamp == now
                &&& event.nullifier_hash == nullifier_hash
                &&& event.old_vote_weight == old_weight
                &&& event.new_vote_choice == new_vote_choice
                &&& event.old_vote_choice == old(vote).vote_choice
                &&& event.new_vote_weight == new_weight
            },
        },
{
    if !crate::state::bytes32_eq(&vote.nullifier_hash, &nullifier_hash) {
        return Err(VotingError::InvalidNullifierHash);
    }
    if !poll.allow_recast {
        return Err(VotingError::RecastNotAllowed);
    }
    match poll.recast_vote_window {
        Some(window) => {
            match poll.poll_begin_time.checked_add(window) {
                Some(recast_end_time) => {
                    if now > recast_end_time {
                        return Err(VotingError::RecastWindowExpired);
                    }
                },
                None => {
                    return Err(VotingError::ArithmeticOverflow);
                },
            }
        },
        None => {},
    }
    if now > poll.poll_end_time {
        return Err(VotingError::VotingEnded);
    }
    if !poll.is_active(now) {
        return Err(VotingError::PollNotActive);
    }
    if (new_vote_choice as usize) >= poll.options.len() {
        return Err(VotingError::InvalidVoteChoice);
    }
    match verify_zk_proof(zk_proof.as_slice(), public_signals.as_slice(), &poll.eligibility_criteria) {
        Ok(_) => {},
        Err(e) => {
            return Err(e);
        },
    }
    let new_weight: u64 = if poll.poll_type == PollType::Quadratic {
        let quad_params = match &poll.quadratic_parameters {
            Some(q) => q,
            None => {
                return Err(VotingError::InvalidProgramState);
            },
        };
        let weight = match new_vote_weight {
            Some(w) => w,
            None => {
                return Err(VotingError::InvalidVoteWeight);
            },
        };
        let cost = match calculate_quadratic_cost(&quad_params.credit_cost_curve, weight) {
            Ok(c) => c,
            Err(e) => {
                return Err(e);
            },
        };
        if cost > quad_params.max_credits {
            return Err(VotingError::InsufficientCredits);
        }
        weight
    } else {
        1u64
    };
    let old_weight = vote.vote_weight;
    let old_vote_choice = vote.vote_choice;
    let old_choice = vote.vote_choice as usize;
    let reduced_old = match poll.vote_counts[old_choice].checked_sub(old_weight) {
        Some(c) => c,
        None => {
            return Err(VotingError::ArithmeticUnderflow);
        },
    };
    let reduced_total = match poll.total_votes.checked_sub(old_weight) {
        Some(t) => t,
        None => {
            return Err(VotingError::ArithmeticUnderflow);
        },
    };
    let new_choice_index = new_vote_choice as usize;
    let base_new = if new_choice_index == old_choice {
        reduced_old
    } else {
        poll.vote_counts[new_choice_index]
    };
    let raised_new = match base_new.checked_add(new_weight) {
        Some(c) => c,
        None => {
            return Err(VotingError::ArithmeticOverflow);
        },
    };
    let new_total = match reduced_total.checked_add(new_weight) {
        Some(t) => t,
        None => {
            return Err(VotingError::ArithmeticOverflow);
        },
    };
    proof {
        lemma_sum_weights_update(poll.vote_counts@, old_choice as int, reduced_old);
        lemma_sum_weights_update(
            poll.vote_counts@.update(old_choice as int, reduced_old),
            new_choice_index as int,
            raised_new,
        );
    }
    poll.vote_counts[old_choice] = reduced_old;
    poll.vote_counts[new_choice_index] = raised_new;
    poll.total_votes = new_total;
    poll.updated_at = now;
    vote.vote_choice = new_vote_choice;
    vote.vote_weight = new_weight;
    vote.zk_proof_hash = hash_zk_proof(zk_proof.as_slice());
    vote.timestamp = now;
    let event = VoteRecast {
        poll: poll_key,
        timestamp: now,
        nullifier_hash,
        old_vote_weight: old_weight,
        new_vote_choice,
        old_vote_choice,
        new_vote_weight: new_weight,
    };
    Ok(event)
}

} // verus!
