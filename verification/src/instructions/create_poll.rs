use vstd::prelude::*;

use crate::error::VotingError;
use crate::state::poll::{lemma_sum_weights_all_zero, Poll, PollMetadata, QuadraticParameters,
    MAX_DESCRIPTION_LEN, MAX_OPTIONS, MAX_OPTION_LEN, MAX_POLL_DURATION, MAX_POLL_NAME_LEN,
    MIN_OPTIONS, MIN_POLL_DURATION};
use crate::state::{EligibilityCriteria, PollStatus, PollType, Pubkey};

verus! {

/// The notification a successful poll creation emits.
#[derive(Clone, Debug)]
pub struct PollCreated {
    pub poll: Pubkey,
    pub authority: Pubkey,
    pub poll_name: String,
    pub poll_type: PollType,
    pub start_time: i64,
    pub end_time: i64,
    pub max_voters: Option<u64>,
    pub created_at: i64,
}

/// The failure, if any, that creating a poll from these inputs reports:
/// bounded name, description and option labels, 2 to 10 options, a start
/// not in the past, a duration of one hour to one year, a recast window
/// only with recasting allowed and within the duration, and quadratic
/// parameters only on a quadratic poll, with positive credits and a
/// non-empty curve.
pub open spec fn create_err(
    poll_name: Seq<char>,
    options: Seq<Seq<char>>,
    description: Seq<char>,
    poll_begin_time: i64,
    poll_end_time: i64,
    poll_type: PollType,
    quadratic_parameters: Option<QuadraticParameters>,
    allow_recast: bool,
    recast_vote_window: Option<i64>,
    now: i64,
) -> Option<VotingError> {
    let duration = poll_end_time - poll_begin_time;
    if poll_name.len() > MAX_POLL_NAME_LEN {
        Some(VotingError::PollNameTooLong)
    } else if description.len() > MAX_DESCRIPTION_LEN {
        Some(VotingError::PollDescriptionTooLong)
    } else if options.len() < MIN_OPTIONS || options.len() > MAX_OPTIONS {
        Some(VotingError::TooManyOptions)
    } else if exists|i: int| 0 <= i < options.len() && #[trigger] options[i].len() > MAX_OPTION_LEN {
        Some(VotingError::OptionTooLong)
    } else if poll_begin_time < now {
        Some(VotingError::PollStartTimeInPast)
    } else if poll_end_time <= poll_begin_time {
        Some(VotingError::InvalidPollEndTime)
    } else if duration < MIN_POLL_DURATION || duration > MAX_POLL_DURATION {
        Some(VotingError::InvalidPollDuration)
    } else if recast_vote_window is Some && !allow_recast {
        Some(VotingError::RecastNotAllowed)
    } else if recast_vote_window matches Some(w) && (w <= 0 || w > duration) {
        Some(VotingError::InvalidPollDuration)
    } else if quadratic_parameters is Some && poll_type != PollType::Quadratic {
        Some(VotingError::OperationNotAllowed)
    } else if quadratic_parameters matches Some(q) && q.max_credits == 0 {
        Some(VotingError::InvalidVoteWeight)
    } else if quadratic_parameters matches Some(q) && q.credit_cost_curve@.len() == 0 {
        Some(VotingError::InvalidVoteWeight)
    } else {
        None
    }
}

/// A tally array of the given length, all zero.
fn zero_counts(n: usize) -> (v: Vec<u64>)
    ensures
        v@.len() == n,
        forall|i: int| 0 <= i < n ==> v@[i] == 0,
{
    let mut v: Vec<u64> = Vec::new();
    let mut i: usize = 0;
    while i < n
        invariant
            i <= n,
            v@.len() == i,
            forall|j: int| 0 <= j < i ==> v@[j] == 0,
        decreases n - i,
    {
        v.push(0);
        i += 1;
    }
    v
}

/// Create a poll owned by `authority`, to live at the address `poll_key`.
///
/// Validates every bound [`create_err`] names and builds the poll with
/// zeroed tallies and empty nullifier registries, in `Active` status when
/// its window has already begun and `Pending` otherwise, together with its
/// companion metadata record and the creation notification. On any
/// violated constraint the error is reported and no state is produced.
#[verifier::loop_isolation(false)]
pub fn handler(
    authority: Pubkey,
    poll_name: String,
    options: Vec<String>,
    description: String,
    eligibility_criteria: EligibilityCriteria,
    poll_begin_time: i64,
    poll_end_time: i64,
    max_voters: Option<u64>,
    poll_type: PollType,
    geolocation_required: bool,
    quadratic_parameters: Option<QuadraticParameters>,
    allow_recast: bool,
    recast_vote_window: Option<i64>,
    poll_key: Pubkey,
    now: i64,
) -> (r: Result<(Poll, PollMetadata, PollCreated), VotingError>)
    ensures
        match r {
            Err(e) => create_err(
                poll_name@,
                options.deep_view(),
                description@,
                poll_begin_time,
                poll_end_time,
                poll_type,
                quadratic_parameters,
                allow_recast,
                recast_vote_window,
                now,
            ) == Some(e),
            Ok((poll, metadata, event)) => {
                &&& create_err(
                    poll_name@,
                    options.deep_view(),
                    description@,
                    poll_begin_time,
                    poll_end_time,
                    poll_type,
                    quadratic_parameters,
                    allow_recast,
                    recast_vote_window,
                    now,
                ) is None
                &&& poll.wf()
                &&& poll.authority == authority
                &&& poll.poll_name == poll_name
                &&& poll.options == options
                &&& poll.description == description
                &&& poll.eligibility_criteria == eligibility_criteria
                &&& poll.status == (if poll_begin_time <= now {
                    PollStatus::Active
                } else {
                    PollStatus::Pending
                })
                &&& poll.poll_type == poll_type
                &&& poll.poll_begin_time == poll_begin_time
                &&& poll.poll_end_time == poll_end_time
                &&& poll.max_voters == max_voters
                &&& poll.total_votes == 0
                &&& poll.nullifier_hashes@.len() == 0
                &&& poll.vote_counts@.len() == options@.len()
                &&& (forall|i: int| 0 <= i < poll.vote_counts@.len() ==> poll.vote_counts@[i] == 0)
                &&& poll.delegation_nullifiers@.len() == 0
                &&& poll.recast_vote_window == recast_vote_window
                &&& poll.unique_voters == 0
                &&& poll.created_at == now
                &&& poll.updated_at == now
                &&& poll.allow_recast == allow_recast
                &&& poll.geolocation_required == geolocation_required
                &&& poll.quadratic_parameters == quadratic_parameters
                &&& metadata.poll == poll_key
                &&& metadata.nullifier_count == 0
                &&& event.poll == poll_key
                &&& event.authority == authority
                &&& event.poll_name == poll_name
                &&& event.poll_type == poll_type
                &&& event.start_time == poll_begin_time
                &&& event.end_time == poll_end_time
                &&& event.max_voters == max_voters
                &&& event.created_at == now
            },
        },
{
    if poll_name.as_str().unicode_len() > MAX_POLL_NAME_LEN {
        return Err(VotingError::PollNameTooLong);
    }
    if description.as_str().unicode_len() > MAX_DESCRIPTION_LEN {
        return Err(VotingError::PollDescriptionTooLong);
    }
    let option_count = options.len();
    if option_count < MIN_OPTIONS || option_count > MAX_OPTIONS {
        return Err(VotingError::TooManyOptions);
    }
    let mut i: usize = 0;
    while i < option_count
        invariant
            i <= option_count == options@.len(),
            forall|j: int| 0 <= j < i ==> #[trigger] options@[j]@.len() <= MAX_OPTION_LEN,
        decreases option_count - i,
    {
        if options[i].as_str().unicode_len() > MAX_OPTION_LEN {
            proof {
                let dv = options.deep_view();
                assert(dv[i as int].len() > MAX_OPTION_LEN);
                assert(exists|k: int| 0 <= k < dv.len() && #[trigger] dv[k].len() > MAX_OPTION_LEN);
            }
            return Err(VotingError::OptionTooLong);
        }
        i += 1;
    }
    proof {
        assert(forall|j: int|
            0 <= j < options.deep_view().len() ==> #[trigger] options.deep_view()[j].len()
                <= MAX_OPTION_LEN);
    }
    if poll_begin_time < now {
        return Err(VotingError::PollStartTimeInPast);
    }
    if poll_end_time <= poll_begin_time {
        return Err(VotingError::InvalidPollEndTime);
    }
    let duration_wide: i128 = (poll_end_time as i128) - (poll_begin_time as i128);
    if duration_wide < (MIN_POLL_DURATION as i128) || duration_wide > (MAX_POLL_DURATION as i128) {
        return Err(VotingError::InvalidPollDuration);
    }
    let duration: i64 = poll_end_time - poll_begin_time;
    match recast_vote_window {
        Some(window) => {
            if !allow_recast {
                return Err(VotingError::RecastNotAllowed);
            }
            if window <= 0 || window > duration {
                return Err(VotingError::InvalidPollDuration);
            }
        },
        None => {},
    }
    match &quadratic_parameters {
        Some(quad_params) => {
            if poll_type != PollType::Quadratic {
                return Err(VotingError::OperationNotAllowed);
            }
            if quad_params.max_credits == 0 {
                return Err(VotingError::InvalidVoteWeight);
            }
            if quad_params.credit_cost_curve.len() == 0 {
                return Err(VotingError::InvalidVoteWeight);
            }
        },
        None => {},
    }
    let vote_counts = zero_counts(option_count);
    proof {
        lemma_sum_weights_all_zero(vote_counts@);
    }
    let status = if poll_begin_time <= now {
        PollStatus::Active
    } else {
        PollStatus::Pending
    };
    let event = PollCreated {
        poll: poll_key,
        authority,
        poll_name: poll_name.clone(),
        poll_type,
        start_time: poll_begin_time,
        end_time: poll_end_time,
        max_voters,
        created_at: now,
    };
    let poll = Poll {
        authority,
        poll_name,
        options,
        description,
        eligibility_criteria,
        status,
        poll_type,
        poll_begin_time,
        poll_end_time,
        max_voters,
        total_votes: 0,
        nullifier_hashes: Vec::new(),
        vote_counts,
        delegation_nullifiers: Vec::new(),
        recast_vote_window,
        unique_voters: 0,
        created_at: now,
        updated_at: now,
        allow_recast,
        geolocation_required,
        quadratic_parameters,
    };
    let metadata = PollMetadata { poll: poll_key, nullifier_count: 0 };
    Ok((poll, metadata, event))
}

} // verus!
