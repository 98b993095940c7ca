use vstd::prelude::*;

use crate::error::VotingError;
use crate::state::poll::Poll;
use crate::state::vote::{lemma_registry_push_disjoint_right, lemma_registry_push_unique,
    VoteDelegation, VoterNullifier};
use crate::state::{bytes32_same, Pubkey};
use crate::utils::verify_zk_proof;
use crate::utils::zk_verification::zk_proof_err;

verus! {

/// The notification a successful delegation emits.
#[derive(Clone, Copy, Debug)]
pub struct VoteDelegationCreated {
    pub poll: Pubkey,
    pub delegator: Pubkey,
    pub delegatee: Pubkey,
    pub created_at: i64,
    pub expires_at: Option<i64>,
    pub nullifier_hash: [u8; 32],
}

/// The failure, if any, that delegating reports, in the order the checks
/// run: the poll must be active and inside its voting window, the delegatee
/// must differ from the delegator, the proof must be accepted, any expiry
/// must lie after `now` and not after the poll's end, and the delegator's
/// nullifier must still be unconsumed.
pub open spec fn delegate_err(
    poll: Poll,
    delegator: Pubkey,
    delegatee: Pubkey,
    zk_proof: Seq<u8>,
    nullifier_hash: [u8; 32],
    public_signals: Seq<Seq<char>>,
    expires_at: Option<i64>,
    now: i64,
) -> Option<VotingError> {
    if now > poll.poll_end_time {
        Some(VotingError::VotingEnded)
    } else if !poll.spec_is_active(now) {
        Some(VotingError::PollNotActive)
    } else if bytes32_same(delegatee, delegator) {
        Some(VotingError::CannotDelegateToSelf)
    } else if zk_proof_err(zk_proof, public_signals, poll.eligibility_criteria) is Some {
        zk_proof_err(zk_proof, public_signals, poll.eligibility_criteria)
    } else if expires_at matches Some(t) && t <= now {
        Some(VotingError::InvalidExpirationTime)
    } else if expires_at matches Some(t) && t > poll.poll_end_time {
        Some(VotingError::ExpirationAfterVotingEnded)
    } else if poll.spec_nullifier_consumed(nullifier_hash) {
        Some(VotingError::NullifierAlreadyUsed)
    } else {
        None
    }
}

/// Authorize `delegatee` to cast on `delegator`'s behalf against the poll
/// living at `poll_key`.
///
/// On success the delegator's nullifier is consumed — it can never cast or
/// delegate again against this poll — and the active delegation record, the
/// registry entry and the notification are returned. No tally changes. On
/// any failure the error [`delegate_err`] names is reported and the poll is
/// left exactly as it was.
pub fn handler(
    poll: &mut Poll,
    poll_key: Pubkey,
    delegator: Pubkey,
    zk_proof: Vec<u8>,
    delegate_pubkey: Pubkey,
    nullifier_hash: [u8; 32],
    public_signals: Vec<String>,
    expires_at: Option<i64>,
    now: i64,
) -> (r: Result<(VoteDelegation, VoterNullifier, VoteDelegationCreated), VotingError>)
    requires
        old(poll).wf(),
    ensures
        final(poll).wf(),
        match r {
            Err(e) => {
                &&& delegate_err(
                    *old(poll),
                    delegator,
                    delegate_pubkey,
                    zk_proof@,
                    nullifier_hash,
                    public_signals.deep_view(),
                    expires_at,
                    now,
                ) == Some(e)
                &&& *final(poll) == *old(poll)
            },
            Ok((delegation, voter_nullifier, event)) => {
                &&& delegate_err(
                    *old(poll),
                    delegator,
                    delegate_pubkey,
                    zk_proof@,
                    nullifier_hash,
                    public_signals.deep_view(),
                    expires_at,
                    now,
                ) is None
                &&& old(poll).same_config(*final(poll))
                &&& final(poll).status == old(poll).status
                &&& final(poll).total_votes == old(poll).total_votes
                &&& final(poll).unique_voters == old(poll).unique_voters
                &&& final(poll).vote_counts@ == old(poll).vote_counts@
                &&& final(poll).nullifier_hashes@ == old(poll).nullifier_hashes@
                &&& final(poll).delegation_nullifiers@ == old(poll).delegation_nullifiers@.push(
                    nullifier_hash,
                )
                &&& final(poll).updated_at == old(poll).updated_at
                &&& delegation.poll == poll_key
                &&& delegation.o_delegator == delegator
                &&& delegation.o_delegatee == delegate_pubkey
                &&& delegation.is_active == true
                &&& delegation.created_at == now
                &&& delegation.expires_at == expires_at
                &&& voter_nullifier.poll == poll_key
                &&& voter_nullifier.created_at == now
                &&& voter_nullifier.nullifier_hash == nullifier_hash
                &&& event.poll == poll_key
                &&& event.delegator == delegator
                &&& event.delegatee == delegate_pubkey
                &&& event.created_at == now
                &&& event.expires_at == expires_at
                &&& event.nullifier_hash == nullifier_hash
            },
        },
{
    if now > poll.poll_end_time {
        return Err(VotingError::VotingEnded);
    }
    if !poll.is_active(now) {
        return Err(VotingError::PollNotActive);
    }
    if crate::state::bytes32_eq(&delegate_pubkey, &delegator) {
        return Err(VotingError::CannotDelegateToSelf);
    }
    match verify_zk_proof(zk_proof.as_slice(), public_signals.as_slice(), &poll.eligibility_criteria) {
        Ok(_) => {},
        Err(e) => {
            return Err(e);
        },
    }
    match expires_at {
        Some(timeout) => {
            if timeout <= now {
                return Err(VotingError::InvalidExpirationTime);
            }
            if timeout > poll.poll_end_time {
                return Err(VotingError::ExpirationAfterVotingEnded);
            }
        },
        None => {},
    }
    if poll.nullifier_consumed(&nullifier_hash) {
        return Err(VotingError::NullifierAlreadyUsed);
    }
    proof {
        lemma_registry_push_unique(poll.delegation_nullifiers@, nullifier_hash);
        lemma_registry_push_disjoint_right(
            poll.nullifier_hashes@,
            poll.delegation_nullifiers@,
            nullifier_hash,
        );
    }
    poll.delegation_nullifiers.push(nullifier_hash);
    let delegation = VoteDelegation {
        poll: poll_key,
        o_delegator: delegator,
        o_delegatee: delegate_pubkey,
        is_active: true,
        created_at: now,
        expires_at,
    };
    let voter_nullifier = VoterNullifier { poll: poll_key, created_at: now, nullifier_hash };
    let event = VoteDelegationCreated {
        poll: poll_key,
        delegator,
        delegatee: delegate_pubkey,
        created_at: now,
        expires_at,
        nullifier_hash,
    };
    Ok((delegation, voter_nullifier, event))
}

} // verus!
