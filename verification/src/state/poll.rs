use vstd::prelude::*;

use crate::state::vote::{registry_contains, registry_disjoint, registry_has, registry_unique};
use crate::state::{EligibilityCriteria, PollStatus, PollType, Pubkey};

verus! {

/// Longest accepted poll name, in characters.
pub const MAX_POLL_NAME_LEN: usize = 100;

/// Longest accepted poll description, in characters.
pub const MAX_DESCRIPTION_LEN: usize = 500;

/// Fewest options a poll may offer.
pub const MIN_OPTIONS: usize = 2;

/// Most options a poll may offer.
pub const MAX_OPTIONS: usize = 10;

/// Longest accepted option label, in characters.
pub const MAX_OPTION_LEN: usize = 50;

/// Shortest accepted poll duration, in seconds (one hour).
pub const MIN_POLL_DURATION: i64 = 3600;

/// Longest accepted poll duration, in seconds (one year).
pub const MAX_POLL_DURATION: i64 = 31536000;

/// The quadratic voting configuration: an ordered cost per incremental
/// weight unit, and a ceiling on the credits a single vote may spend.
/// Immutable once set on poll creation.
#[derive(Clone, Debug)]
pub struct QuadraticParameters {
    pub credit_cost_curve: Vec<u64>,
    pub max_credits: u64,
}

/// A poll: its configuration, lifecycle status, running tallies, and the
/// registries of consumed one-time nullifiers.
///
/// `nullifier_hashes` holds the nullifiers consumed by casts; each one
/// corresponds to exactly one live `Vote` record. `delegation_nullifiers`
/// holds the nullifiers consumed by delegations. The two registries share
/// one namespace: a nullifier consumed by either can never be consumed
/// again (see [`Poll::wf`]).
#[derive(Clone, Debug)]
pub struct Poll {
    pub authority: Pubkey,
    pub poll_name: String,
    pub options: Vec<String>,
    pub description: String,
    pub eligibility_criteria: EligibilityCriteria,
    pub status: PollStatus,
    pub poll_type: PollType,
    pub poll_begin_time: i64,
    pub poll_end_time: i64,
    pub max_voters: Option<u64>,
    pub total_votes: u64,
    pub nullifier_hashes: Vec<[u8; 32]>,
    pub vote_counts: Vec<u64>,
    pub delegation_nullifiers: Vec<[u8; 32]>,
    pub recast_vote_window: Option<i64>,
    pub unique_voters: u64,
    pub created_at: i64,
    pub updated_at: i64,
    pub allow_recast: bool,
    pub geolocation_required: bool,
    pub quadratic_parameters: Option<QuadraticParameters>,
}

/// Companion record of a poll, carrying its registry size for indexers.
#[derive(Clone, Copy, Debug)]
pub struct PollMetadata {
    pub poll: Pubkey,
    pub nullifier_count: u64,
}

/// The total weight recorded in a tally sequence.
pub open spec fn sum_weights(s: Seq<u64>) -> int
    decreases s.len(),
{
    if s.len() == 0 {
        0
    } else {
        sum_weights(s.drop_last()) + s.last()
    }
}

/// Replacing one tally entry changes the sum by exactly the difference.
pub proof fn lemma_sum_weights_update(s: Seq<u64>, i: int, v: u64)
    requires
        0 <= i < s.len(),
    ensures
        sum_weights(s.update(i, v)) == sum_weights(s) - s[i] + v,
    decreases s.len(),
{
    if i == s.len() - 1 {
        assert(s.update(i, v).drop_last() =~= s.drop_last());
    } else {
        assert(s.update(i, v).drop_last() =~= s.drop_last().update(i, v));
        lemma_sum_weights_update(s.drop_last(), i, v);
    }
}

/// A sequence of zero tallies sums to zero.
pub proof fn lemma_sum_weights_all_zero(s: Seq<u64>)
    requires
        forall|i: int| 0 <= i < s.len() ==> s[i] == 0,
    ensures
        sum_weights(s) == 0,
    decreases s.len(),
{
    if s.len() > 0 {
        lemma_sum_weights_all_zero(s.drop_last());
    }
}

/// The index reported as a poll's winner: the first index holding the
/// maximum tally, so the earliest option wins ties.
pub open spec fn first_max_index(s: Seq<u64>) -> int
    recommends
        s.len() > 0,
    decreases s.len(),
{
    if s.len() <= 1 {
        0
    } else {
        let r = first_max_index(s.drop_last());
        if s.last() > s[r] {
            s.len() - 1
        } else {
            r
        }
    }
}

/// `first_max_index` names a valid index whose tally no entry exceeds, and
/// every earlier entry is strictly smaller: ties go to the first maximum.
pub proof fn lemma_first_max_index_is_first_max(s: Seq<u64>)
    requires
        s.len() > 0,
    ensures
        0 <= first_max_index(s) < s.len(),
        forall|i: int| 0 <= i < s.len() ==> #[trigger] s[i] <= s[first_max_index(s)],
        forall|i: int| 0 <= i < first_max_index(s) ==> #[trigger] s[i] < s[first_max_index(s)],
    decreases s.len(),
{
    if s.len() > 1 {
        lemma_first_max_index_is_first_max(s.drop_last());
        assert(forall|i: int| 0 <= i < s.len() - 1 ==> s[i] == s.drop_last()[i]);
    }
}

impl Poll {
    /// The poll's configured duration in seconds.
    pub open spec fn spec_duration(self) -> int {
        self.poll_end_time - self.poll_begin_time
    }

    /// A poll is active when its status says so and `now` lies inside its
    /// voting window.
    pub open spec fn spec_is_active(self, now: i64) -> bool {
        &&& self.status == PollStatus::Active
        &&& self.poll_begin_time <= now
        &&& now <= self.poll_end_time
    }

    /// A vote may be cast when the poll is active and any max-voters cap
    /// still has room.
    pub open spec fn spec_can_vote(self, now: i64) -> bool {
        &&& self.spec_is_active(now)
        &&& match self.max_voters {
            Some(cap) => self.unique_voters < cap,
            None => true,
        }
    }

    /// Well-formedness: the internal consistency every constructed poll has
    /// and every operation preserves.
    ///
    /// In particular: `total_votes` equals the sum of `vote_counts`;
    /// `unique_voters` equals the number of live cast-registry entries;
    /// no nullifier is registered twice, by casts or delegations.
    pub open spec fn wf(self) -> bool {
        &&& MIN_OPTIONS <= self.options@.len() <= MAX_OPTIONS
        &&& self.vote_counts@.len() == self.options@.len()
        &&& sum_weights(self.vote_counts@) == self.total_votes as int
        &&& self.nullifier_hashes@.len() == self.unique_voters as int
        &&& registry_unique(self.nullifier_hashes@)
        &&& registry_unique(self.delegation_nullifiers@)
        &&& registry_disjoint(self.nullifier_hashes@, self.delegation_nullifiers@)
        &&& self.poll_begin_time < self.poll_end_time
        &&& MIN_POLL_DURATION <= self.spec_duration() <= MAX_POLL_DURATION
        &&& match self.recast_vote_window {
            Some(w) => self.allow_recast && 0 < w && w <= self.spec_duration(),
            None => true,
        }
        &&& match self.quadratic_parameters {
            Some(q) => {
                &&& self.poll_type == PollType::Quadratic
                &&& q.max_credits > 0
                &&& q.credit_cost_curve@.len() > 0
            },
            None => true,
        }
        &&& self.poll_name@.len() <= MAX_POLL_NAME_LEN
        &&& self.description@.len() <= MAX_DESCRIPTION_LEN
        &&& forall|i: int|
            0 <= i < self.options@.len() ==> self.options@[i]@.len() <= MAX_OPTION_LEN
    }

    /// True when the nullifier was already consumed against this poll,
    /// whether by a cast or by a delegation: the two registries share one
    /// namespace.
    pub open spec fn spec_nullifier_consumed(self, nullifier: [u8; 32]) -> bool {
        registry_has(self.nullifier_hashes@, nullifier) || registry_has(
            self.delegation_nullifiers@,
            nullifier,
        )
    }

    /// The fields no vote-affecting operation changes: everything but the
    /// status, the tallies, the registries and the update timestamp.
    pub open spec fn same_config(self, other: Poll) -> bool {
        &&& other.authority == self.authority
        &&& other.poll_name == self.poll_name
        &&& other.options == self.options
        &&& other.description == self.description
        &&& other.eligibility_criteria == self.eligibility_criteria
        &&& other.poll_type == self.poll_type
        &&& other.poll_begin_time == self.poll_begin_time
        &&& other.poll_end_time == self.poll_end_time
        &&& other.max_voters == self.max_voters
        &&& other.recast_vote_window == self.recast_vote_window
        &&& other.created_at == self.created_at
        &&& other.allow_recast == self.allow_recast
        &&& other.geolocation_required == self.geolocation_required
        &&& other.quadratic_parameters == self.quadratic_parameters
    }

    /// Whether the nullifier was already consumed against this poll.
    pub fn nullifier_consumed(&self, nullifier: &[u8; 32]) -> (r: bool)
        ensures
            r == self.spec_nullifier_consumed(*nullifier),
    {
        registry_contains(&self.nullifier_hashes, nullifier) || registry_contains(
            &self.delegation_nullifiers,
            nullifier,
        )
    }

    /// Whether the poll accepts vote-affecting operations at time `now`.
    pub fn is_active(&self, now: i64) -> (r: bool)
        ensures
            r == self.spec_is_active(now),
    {
        self.status == PollStatus::Active && self.poll_begin_time <= now
            && now <= self.poll_end_time
    }

    /// Whether a new vote may still be cast at time `now`.
    pub fn can_vote(&self, now: i64) -> (r: bool)
        ensures
            r == self.spec_can_vote(now),
    {
        if !self.is_active(now) {
            return false;
        }
        match self.max_voters {
            Some(cap) => self.unique_voters < cap,
            None => true,
        }
    }
}

/// For every well-formed poll, at any point in time, the running total
/// equals the sum of the per-option tallies. Creation establishes
/// well-formedness and every operation's contract preserves it, so this
/// holds throughout a poll's life.
pub proof fn lemma_total_votes_is_tally_sum(poll: Poll)
    requires
        poll.wf(),
    ensures
        poll.total_votes as int == sum_weights(poll.vote_counts@),
{
}

/// For every well-formed poll, the number of live registry entries that
/// casts consumed equals `unique_voters`. Recasting changes neither side:
/// its contract keeps both the cast registry and `unique_voters` untouched.
pub proof fn lemma_unique_voters_is_cast_registry_size(poll: Poll)
    requires
        poll.wf(),
    ensures
        poll.nullifier_hashes@.len() == poll.unique_voters as int,
{
}

} // verus!
