use vstd::prelude::*;

verus! {

/// Every failure an operation can report. No operation that returns one of
/// these leaves any partial state behind.
#[derive(Clone, Copy, Debug, PartialEq, Eq)]
pub enum VotingError {
    /// Voting is not currently allowed for this poll.
    VotingNotAllowed,
    /// Poll is not active.
    PollNotActive,
    /// Voting period has ended.
    VotingEnded,
    /// Poll has already been closed.
    PollAlreadyClosed,
    /// Cannot close poll at this time.
    CannotClosePoll,
    /// Caller is not the required authority.
    UnauthorizedAccess,
    /// Invalid vote choice.
    InvalidVoteChoice,
    /// Voter has already cast a vote.
    VoterAlreadyVoted,
    /// Proof verification failed.
    ZkProofVerificationFailed,
    /// Invalid proof provided.
    InvalidZkProof,
    /// Data provided is too long.
    DataTooLong,
    /// Poll name is too long.
    PollNameTooLong,
    /// Poll description is too long.
    PollDescriptionTooLong,
    /// Too few or too many poll options provided.
    TooManyOptions,
    /// Poll option text is too long.
    OptionTooLong,
    /// Invalid poll duration.
    InvalidPollDuration,
    /// Poll start time must not be in the past.
    PollStartTimeInPast,
    /// Poll end time must be after start time.
    InvalidPollEndTime,
    /// Cannot delegate vote to yourself.
    CannotDelegateToSelf,
    /// Delegation has expired.
    DelegationExpired,
    /// Invalid expiration time for delegation.
    InvalidExpirationTime,
    /// Expiration time cannot be after voting ends.
    ExpirationAfterVotingEnded,
    /// Delegation is not active.
    DelegationNotActive,
    /// Recast window has expired.
    RecastWindowExpired,
    /// Vote recasting is not allowed for this poll.
    RecastNotAllowed,
    /// Maximum voters limit reached.
    MaxVotersReached,
    /// Eligibility criteria not met.
    EligibilityNotMet,
    /// Invalid vote weight.
    InvalidVoteWeight,
    /// Insufficient credits for quadratic voting.
    InsufficientCredits,
    /// User not found.
    UserNotFound,
    /// Invalid nullifier hash.
    InvalidNullifierHash,
    /// Nullifier already used.
    NullifierAlreadyUsed,
    /// Invalid public signals.
    InvalidPublicSignals,
    /// Location verification failed.
    LocationVerificationFailed,
    /// Decentralized-identity verification failed.
    DidVerificationFailed,
    /// Invalid badge type.
    InvalidBadgeType,
    /// Badge already awarded.
    BadgeAlreadyAwarded,
    /// System is paused.
    SystemPaused,
    /// Operation not allowed.
    OperationNotAllowed,
    /// Invalid program state.
    InvalidProgramState,
    /// Arithmetic overflow.
    ArithmeticOverflow,
    /// Arithmetic underflow.
    ArithmeticUnderflow,
}

impl VotingError {
    /// A human-readable description of the error.
    pub fn message(&self) -> &'static str {
        match self {
            VotingError::VotingNotAllowed => "Voting is not currently allowed for this poll",
            VotingError::PollNotActive => "Poll is not active",
            VotingError::VotingEnded => "Voting period has ended",
            VotingError::PollAlreadyClosed => "Poll has already been closed",
            VotingError::CannotClosePoll => "Cannot close poll at this time",
            VotingError::UnauthorizedAccess => "Unauthorized access",
            VotingError::InvalidVoteChoice => "Invalid vote choice",
            VotingError::VoterAlreadyVoted => "Voter has already cast a vote",
            VotingError::ZkProofVerificationFailed => "Proof verification failed",
            VotingError::InvalidZkProof => "Invalid proof provided",
            VotingError::DataTooLong => "Data provided is too long",
            VotingError::PollNameTooLong => "Poll name is too long",
            VotingError::PollDescriptionTooLong => "Poll description is too long",
            VotingError::TooManyOptions => "Too few or too many poll options provided",
            VotingError::OptionTooLong => "Poll option text is too long",
            VotingError::InvalidPollDuration => "Invalid poll duration",
            VotingError::PollStartTimeInPast => "Poll start time must not be in the past",
            VotingError::InvalidPollEndTime => "Poll end time must be after start time",
            VotingError::CannotDelegateToSelf => "Cannot delegate vote to yourself",
            VotingError::DelegationExpired => "Delegation has expired",
            VotingError::InvalidExpirationTime => "Invalid expiration time for delegation",
            VotingError::ExpirationAfterVotingEnded => "Expiration time cannot be after voting ends",
            VotingError::DelegationNotActive => "Delegation is not active",
            VotingError::RecastWindowExpired => "Recast window has expired",
            VotingError::RecastNotAllowed => "Vote recasting is not allowed for this poll",
            VotingError::MaxVotersReached => "Maximum voters limit reached",
            VotingError::EligibilityNotMet => "Eligibility criteria not met",
            VotingError::InvalidVoteWeight => "Invalid vote weight",
            VotingError::InsufficientCredits => "Insufficient credits for quadratic voting",
            VotingError::UserNotFound => "User not found",
            VotingError::InvalidNullifierHash => "Invalid nullifier hash",
            VotingError::NullifierAlreadyUsed => "Nullifier already used",
            VotingError::InvalidPublicSignals => "Invalid public signals",
            VotingError::LocationVerificationFailed => "Location verification failed",
            VotingError::DidVerificationFailed => "Decentralized-identity verification failed",
            VotingError::InvalidBadgeType => "Invalid badge type",
            VotingError::BadgeAlreadyAwarded => "Badge already awarded",
            VotingError::SystemPaused => "System is paused",
            VotingError::OperationNotAllowed => "Operation not allowed",
            VotingError::InvalidProgramState => "Invalid program state",
            VotingError::ArithmeticOverflow => "Arithmetic overflow",
            VotingError::ArithmeticUnderflow => "Arithmetic underflow",
        }
    }
}

} // verus!
