use vstd::prelude::*;

use crate::error::VotingError;
use crate::state::poll::{lemma_sum_weights_update, Poll};
use crate::state::vote::{lemma_registry_push_disjoint_left, lemma_registry_push_unique, Vote,
    VoterNullifier};
use crate::state::{bytes32_same, PollType, Pubkey};
use crate::utils::hash::{hash_zk_proof, sha256_of};
use crate::utils::verify_zk_proof;
use crate::utils::zk_verification::zk_proof_err;

verus! {

/// The notification a successful cast emits.
#[derive(Clone, Copy, Debug)]
pub struct VoteCast {
    pub poll: Pubkey,
    pub timestamp: i64,
    pub nullifier_hash: [u8; 32],
    pub vote_choice: u8,
    pub vote_weight: u64,
    pub total_votes: u64,
}

/// The weight a submission asks for: the explicit weight, or one.
pub open spec fn requested_weight(vote_weight: Option<u64>) -> u64 {
    match vote_weight {
        Some(w) => w,
        None => 1u64,
    }
}

/// The failure, if any, that computing a cast's counted weight reports.
/// Only the quadratic kind constrains it: the weight must be positive, and
/// with quadratic parameters set, its square — the credits the vote costs —
/// must stay within the credits ceiling.
pub open spec fn cast_weight_err(poll: Poll, vote_weight: Option<u64>) -> Option<VotingError> {
    let w = requested_weight(vote_weight);
    if poll.poll_type == PollType::Quadratic {
        if w == 0 {
            Some(VotingError::InvalidVoteWeight)
        } else {
            match poll.quadratic_parameters {
                Some(q) => if w * w > q.max_credits {
                    Some(VotingError::InsufficientCredits)
                } else {
                    None
                },
                None => None,
            }
        }
    } else {
        None
    }
}

/// The weight a cast records against the tally: the squared requested
/// weight for a quadratic poll with parameters, the requested weight
/// otherwise.
pub open spec fn cast_counted_weight(poll: Poll, vote_weight: Option<u64>) -> u64 {
    let w = requested_weight(vote_weight);
    if poll.poll_type == PollType::Quadratic {
        match poll.quadratic_parameters {
            Some(q) => (w * w) as u64,
            None => w,
        }
    } else {
        w
    }
}

/// The failure, if any, that casting this submission against the poll
/// reports, in the order the checks run: the voting window, the poll's
/// activity and capacity, the choice range, the proof and its signals, the
/// weight, the one-time nullifier, and finally the tally arithmetic.
pub open spec fn cast_err(
    poll: Poll,
    vote_choice: u8,
    zk_proof: Seq<u8>,
    nullifier_hash: [u8; 32],
    public_signals: Seq<Seq<char>>,
    vote_weight: Option<u64>,
    now: i64,
) -> Option<VotingError> {
    if now > poll.poll_end_time {
        Some(VotingError::VotingEnded)
    } else if !poll.spec_is_active(now) {
        Some(VotingError::PollNotActive)
    } else if !poll.spec_can_vote(now) {
        Some(VotingError::VotingNotAllowed)
    } else if vote_choice as int >= poll.options@.len() {
        Some(VotingError::InvalidVoteChoice)
    } else if zk_proof_err(zk_proof, public_signals, poll.eligibility_criteria) is Some {
        zk_proof_err(zk_proof, public_signals, poll.eligibility_criteria)
    } else if cast_weight_err(poll, vote_weight) is Some {
        cast_weight_err(poll, vote_weight)
    } else if poll.spec_nullifier_consumed(nullifier_hash) {
        Some(VotingError::NullifierAlreadyUsed)
    } else {
        let counted = cast_counted_weight(poll, vote_weight);
        if poll.total_votes + counted > u64::MAX {
            Some(VotingError::ArithmeticOverflow)
        } else if poll.unique_voters + 1 > u64::MAX {
            Some(VotingError::ArithmeticOverflow)
        } else if poll.vote_counts@[vote_choice as int] + counted > u64::MAX {
            Some(VotingError::ArithmeticOverflow)
        } else {
            None
        }
    }
}

/// A successful cast consumes its nullifier: a poll whose cast registry
/// grew by `nullifier_hash` — what the handler's contract says of every
/// success — holds it consumed from then on.
pub proof fn lemma_cast_consumes_nullifier(before: Poll, after: Poll, nullifier_hash: [u8; 32])
    requires
        after.nullifier_hashes@ == before.nullifier_hashes@.push(nullifier_hash),
    ensures
        after.spec_nullifier_consumed(nullifier_hash),
{
    let registry = after.nullifier_hashes@;
    assert(bytes32_same(registry[registry.len() - 1], nullifier_hash));
}

/// No double counting: a cast whose nullifier was already consumed against
/// the poll always fails — and fails with exactly the duplicate-nullifier
/// error whenever every check before the registry lookup passes. By the
/// handler's contract a failed cast leaves the poll, and so its tallies,
/// unchanged.
pub proof fn lemma_no_double_cast(
    poll: Poll,
    vote_choice: u8,
    zk_proof: Seq<u8>,
    nullifier_hash: [u8; 32],
    public_signals: Seq<Seq<char>>,
    vote_weight: Option<u64>,
    now: i64,
)
    requires
        poll.spec_nullifier_consumed(nullifier_hash),
    ensures
        cast_err(
            poll,
            vote_choice,
            zk_proof,
            nullifier_hash,
            public_signals,
            vote_weight,
            now,
        ) is Some,
        ({
            &&& now <= poll.poll_end_time
            &&& poll.spec_is_active(now)
            &&& poll.spec_can_vote(now)
            &&& (vote_choice as int) < poll.options@.len()
            &&& zk_proof_err(zk_proof, public_signals, poll.eligibility_criteria) is None
            &&& cast_weight_err(poll, vote_weight) is None
        }) ==> cast_err(
            poll,
            vote_choice,
            zk_proof,
            nullifier_hash,
            public_signals,
            vote_weight,
            now,
        ) == Some(VotingError::NullifierAlreadyUsed),
{
}

/// Once a poll's voting window has ended, casting fails with the
/// voting-ended error — whatever the proof, signals, weight or nullifier.
pub proof fn lemma_cast_after_end_fails(
    poll: Poll,
    vote_choice: u8,
    zk_proof: Seq<u8>,
    nullifier_hash: [u8; 32],
    public_signals: Seq<Seq<char>>,
    vote_weight: Option<u64>,
    now: i64,
)
    requires
        now > poll.poll_end_time,
    ensures
        cast_err(poll, vote_choice, zk_proof, nullifier_hash, public_signals, vote_weight, now)
            == Some(VotingError::VotingEnded),
{
}

/// Cast a vote against the poll living at `poll_key`.
///
/// On success the counted weight is added to the chosen option's tally and
/// to `total_votes`, `unique_voters` grows by one, the nullifier is
/// registered — consumed for good — and the new vote record, registry entry
/// and notification are returned, all in one atomic step. On any failure
/// the error [`cast_err`] names is reported and the poll is left exactly as
/// it was.
pub fn handler(
    poll: &mut Poll,
    poll_key: Pubkey,
    vote_choice: u8,
    zk_proof: Vec<u8>,
    nullifier_hash: [u8; 32],
    public_signals: Vec<String>,
    vote_weight: Option<u64>,
    now: i64,
) -> (r: Result<(Vote, VoterNullifier, VoteCast), VotingError>)
    requires
        old(poll).wf(),
    ensures
        final(poll).wf(),
        match r {
            Err(e) => {
                &&& cast_err(
                    *old(poll),
                    vote_choice,
                    zk_proof@,
                    nullifier_hash,
                    public_signals.deep_view(),
                    vote_weight,
                    now,
                ) == Some(e)
                &&& *final(poll) == *old(poll)
            },
            Ok((vote, voter_nullifier, event)) => {
                let counted = cast_counted_weight(*old(poll), vote_weight);
                &&& cast_err(
                    *old(poll),
                    vote_choice,
                    zk_proof@,
                    nullifier_hash,
                    public_signals.deep_view(),
                    vote_weight,
                    now,
                ) is None
                &&& old(poll).same_config(*final(poll))
                &&& final(poll).status == old(poll).status
                &&& final(poll).total_votes == old(poll).total_votes + counted
                &&& final(poll).unique_voters == old(poll).unique_voters + 1
                &&& final(poll).vote_counts@ == old(poll).vote_counts@.update(
                    vote_choice as int,
                    (old(poll).vote_counts@[vote_choice as int] + counted) as u64,
                )
                &&& final(poll).nullifier_hashes@ == old(poll).nullifier_hashes@.push(
                    nullifier_hash,
                )
                &&& final(poll).delegation_nullifiers@ == old(poll).delegation_nullifiers@
                &&& final(poll).updated_at == now
                &&& vote.poll == poll_key
                &&& vote.nullifier_hash == nullifier_hash
                &&& vote.vote_choice == vote_choice
                &&& vote.zk_proof_hash@ == sha256_of(zk_proof@)
                &&& vote.timestamp == now
                &&& vote.delegate_from is None
                &&& vote.delegate_to == false
                &&& vote.vote_weight == counted
                &&& voter_nullifier.poll == poll_key
                &&& voter_nullifier.created_at == now
                &&& voter_nullifier.nullifier_hash == nullifier_hash
                &&& event.poll == poll_key
                &&& event.timestamp == now
                &&& event.nullifier_hash == nullifier_hash
                &&& event.vote_choice == vote_choice
                &&& event.vote_weight == counted
                &&& event.total_votes == final(poll).total_votes
            },
        },
{
    if now > poll.poll_end_time {
        return Err(VotingError::VotingEnded);
    }
    if !poll.is_active(now) {
        return Err(VotingError::PollNotActive);
    }
    if !poll.can_vote(now) {
        return Err(VotingError::VotingNotAllowed);
    }
    if (vote_choice as usize) >= poll.options.len() {
        return Err(VotingError::InvalidVoteChoice);
    }
    match verify_zk_proof(zk_proof.as_slice(), public_signals.as_slice(), &poll.eligibility_criteria) {
        Ok(_) => {},
        Err(e) => {
            return Err(e);
        },
    }
    let w = match vote_weight {
        Some(w) => w,
        None => 1u64,
    };
    let counted: u64 = if poll.poll_type == PollType::Quadratic {
        if w == 0 {
            return Err(VotingError::InvalidVoteWeight);
        }
        match &poll.quadratic_parameters {
            Some(quad_params) => {
                match w.checked_mul(w) {
                    Some(cost) => {
                        if cost > quad_params.max_credits {
                            return Err(VotingError::InsufficientCredits);
                        }
                        cost
                    },
                    None => {
                        return Err(VotingError::InsufficientCredits);
                    },
                }
            },
            None => w,
        }
    } else {
        w
    };
    if poll.nullifier_consumed(&nullifier_hash) {
        return Err(VotingError::NullifierAlreadyUsed);
    }
    let new_total = match poll.total_votes.checked_add(counted) {
        Some(t) => t,
        None => {
            return Err(VotingError::ArithmeticOverflow);
        },
    };
    let new_unique = match poll.unique_voters.checked_add(1) {
        Some(u) => u,
        None => {
            return Err(VotingError::ArithmeticOverflow);
        },
    };
    let choice_index = vote_choice as usize;
    let new_count = match poll.vote_counts[choice_index].checked_add(counted) {
        Some(c) => c,
        None => {
            return Err(VotingError::ArithmeticOverflow);
        },
    };
    proof {
        lemma_sum_weights_update(poll.vote_counts@, choice_index as int, new_count);
        lemma_registry_push_unique(poll.nullifier_hashes@, nullifier_hash);
        lemma_registry_push_disjoint_left(
            poll.nullifier_hashes@,
            poll.delegation_nullifiers@,
            nullifier_hash,
        );
    }
    poll.total_votes = new_total;
    poll.unique_voters = new_unique;
    poll.vote_counts[choice_index] = new_count;
    poll.nullifier_hashes.push(nullifier_hash);
    poll.updated_at = now;
    let zk_proof_hash = hash_zk_proof(zk_proof.as_slice());
    let vote = Vote {
        poll: poll_key,
        nullifier_hash,
        vote_choice,
        zk_proof_hash,
        timestamp: now,
        delegate_from: None,
        delegate_to: false,
        vote_weight: counted,
    };
    let voter_nullifier = VoterNullifier { poll: poll_key, created_at: now, nullifier_hash };
    let event = VoteCast {
        poll: poll_key,
        timestamp: now,
        nullifier_hash,
        vote_choice,
        vote_weight: counted,
        total_votes: new_total,
    };
    Ok((vote, voter_nullifier, event))
}

} // verus!
