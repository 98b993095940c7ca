use vstd::prelude::*;

pub mod badge;
pub mod poll;
pub mod user;
pub mod vote;
pub mod voting;

pub use badge::UserBadge;
pub use poll::{Poll, PollMetadata, QuadraticParameters};
pub use user::{AccessibilitySettings, NotificationSettings, PrivacySettings, User,
    UserPreferences, UserStats};
pub use vote::{Vote, VoteDelegation, VoterNullifier};
pub use voting::Voting;

verus! {

/// A 32-byte account identity, opaque to the ledger: it is only ever
/// compared for equality and copied into records.
pub type Pubkey = [u8; 32];

/// The kind of a poll, fixing how a submitted vote weight is counted.
#[derive(Clone, Copy, Debug, PartialEq, Eq, Structural)]
pub enum PollType {
    MultiChoice,
    RankedChoice,
    YesNo,
    AnonymousFeedback,
    Quadratic,
}

/// The declarative predicate a submitted proof's public signals must
/// satisfy. Immutable once the poll is created.
#[derive(Clone, Debug)]
pub struct EligibilityCriteria {
    pub min_age: Option<u8>,
    pub required_location: Option<String>,
    pub required_citizenship: Option<String>,
    pub custom_criteria: Vec<String>,
    pub require_did: bool,
}

/// Badge kinds a user can earn.
#[derive(Clone, Copy, Debug, PartialEq, Eq, Structural)]
pub enum BadgeType {
    FirstVote,
    Auditor,
    Delegate,
    FrequentVoter,
    CivicLeader,
    PollCreator,
}

/// A poll's lifecycle state. `Closed` and `Cancelled` are terminal.
#[derive(Clone, Copy, Debug, PartialEq, Eq, Structural)]
pub enum PollStatus {
    Pending,
    Active,
    Cancelled,
    Closed,
}

/// True exactly when two 32-byte identities hold the same bytes.
pub open spec fn bytes32_same(a: [u8; 32], b: [u8; 32]) -> bool {
    a@ == b@
}

/// Byte-wise equality of two 32-byte identities (nullifiers, account keys).
pub fn bytes32_eq(a: &[u8; 32], b: &[u8; 32]) -> (r: bool)
    ensures
        r == bytes32_same(*a, *b),
{
    let mut i: usize = 0;
    while i < 32
        invariant
            i <= 32,
            forall|j: int| 0 <= j < i ==> a@[j] == b@[j],
        decreases 32 - i,
    {
        if a[i] != b[i] {
            return false;
        }
        i += 1;
    }
    proof {
        assert(a@ =~= b@);
    }
    true
}

} // verus!
