use globalvote::error::VotingError;
use globalvote::instructions::{award_badge, cast_vote, create_poll, initialize, vote_delegation};
use globalvote::state::{BadgeType, EligibilityCriteria, PollType, Poll, User};

const NOW: i64 = 1_000;
const DAY: i64 = 86_400;
const POLL_KEY: [u8; 32] = [9; 32];

fn key(b: u8) -> [u8; 32] {
    [b; 32]
}

fn labels(n: usize) -> Vec<String> {
    let mut v = Vec::new();
    for i in 0..n {
        v.push(format!("option {}", i));
    }
    v
}

fn proof_bytes() -> Vec<u8> {
    vec![7; 64]
}

fn poll_with_criteria(criteria: EligibilityCriteria) -> Poll {
    create_poll::handler(
        key(1),
        "city budget".to_string(),
        labels(3),
        "which project should be funded".to_string(),
        criteria,
        NOW,
        NOW + DAY,
        None,
        PollType::MultiChoice,
        false,
        None,
        false,
        None,
        POLL_KEY,
        NOW,
    )
    .unwrap()
    .0
}

fn open_criteria() -> EligibilityCriteria {
    EligibilityCriteria {
        min_age: None,
        required_location: None,
        required_citizenship: None,
        custom_criteria: Vec::new(),
        require_did: false,
    }
}

fn did_criteria() -> EligibilityCriteria {
    EligibilityCriteria { require_did: true, ..open_criteria() }
}

fn age_criteria(min_age: u8) -> EligibilityCriteria {
    EligibilityCriteria { min_age: Some(min_age), ..open_criteria() }
}

fn cast_with_signals(poll: &mut Poll, signals: Vec<String>, nullifier: [u8; 32]) -> Result<(), VotingError> {
    cast_vote::handler(poll, POLL_KEY, 0, proof_bytes(), nullifier, signals, None, NOW + 10)
        .map(|_| ())
}

#[test]
fn did_requirement_rejects_signals_without_assertion() {
    let mut poll = poll_with_criteria(did_criteria());
    let r = cast_with_signals(&mut poll, vec!["age:30".to_string()], key(50));
    assert_eq!(r.unwrap_err(), VotingError::ZkProofVerificationFailed);
}

#[test]
fn did_requirement_accepts_did_signal() {
    let mut poll = poll_with_criteria(did_criteria());
    cast_with_signals(
        &mut poll,
        vec!["note".to_string(), "did:example:123".to_string()],
        key(50),
    )
    .unwrap();
    assert_eq!(poll.unique_voters, 1);
}

#[test]
fn age_requirement_rejects_too_young() {
    let mut poll = poll_with_criteria(age_criteria(18));
    let r = cast_with_signals(&mut poll, vec!["17".to_string()], key(50));
    assert_eq!(r.unwrap_err(), VotingError::ZkProofVerificationFailed);
}

#[test]
fn age_requirement_accepts_exact_age() {
    let mut poll = poll_with_criteria(age_criteria(18));
    cast_with_signals(&mut poll, vec!["18".to_string()], key(50)).unwrap();
}

#[test]
fn age_signal_may_carry_plus_sign_and_leading_zeros() {
    let mut poll = poll_with_criteria(age_criteria(18));
    cast_with_signals(&mut poll, vec!["+021".to_string()], key(50)).unwrap();
}

#[test]
fn age_signal_over_255_is_not_an_age() {
    let mut poll = poll_with_criteria(age_criteria(18));
    let r = cast_with_signals(&mut poll, vec!["300".to_string()], key(50));
    assert_eq!(r.unwrap_err(), VotingError::ZkProofVerificationFailed);
}

#[test]
fn age_requirement_scans_all_signals() {
    let mut poll = poll_with_criteria(age_criteria(18));
    cast_with_signals(
        &mut poll,
        vec!["not a number".to_string(), "19".to_string()],
        key(50),
    )
    .unwrap();
}

#[test]
fn delegation_creates_active_record_and_consumes_nullifier() {
    let mut poll = poll_with_criteria(open_criteria());
    let (delegation, voter_nullifier, event) = vote_delegation::handler(
        &mut poll,
        POLL_KEY,
        key(2),
        proof_bytes(),
        key(3),
        key(60),
        vec!["signal".to_string()],
        Some(NOW + 100),
        NOW + 10,
    )
    .unwrap();
    assert_eq!(delegation.poll, POLL_KEY);
    assert_eq!(delegation.o_delegator, key(2));
    assert_eq!(delegation.o_delegatee, key(3));
    assert!(delegation.is_active);
    assert_eq!(delegation.created_at, NOW + 10);
    assert_eq!(delegation.expires_at, Some(NOW + 100));
    assert_eq!(voter_nullifier.nullifier_hash, key(60));
    assert_eq!(event.delegator, key(2));
    assert_eq!(event.delegatee, key(3));
    assert_eq!(event.nullifier_hash, key(60));
    // No tally moved.
    assert_eq!(poll.total_votes, 0);
    assert_eq!(poll.unique_voters, 0);
    assert_eq!(poll.delegation_nullifiers, vec![key(60)]);
}

#[test]
fn delegation_to_self_is_rejected() {
    let mut poll = poll_with_criteria(open_criteria());
    let r = vote_delegation::handler(
        &mut poll,
        POLL_KEY,
        key(2),
        proof_bytes(),
        key(2),
        key(60),
        vec!["signal".to_string()],
        None,
        NOW + 10,
    );
    assert_eq!(r.unwrap_err(), VotingError::CannotDelegateToSelf);
}

#[test]
fn delegation_rejects_expiry_not_in_future() {
    let mut poll = poll_with_criteria(open_criteria());
    let r = vote_delegation::handler(
        &mut poll,
        POLL_KEY,
        key(2),
        proof_bytes(),
        key(3),
        key(60),
        vec!["signal".to_string()],
        Some(NOW + 10),
        NOW + 10,
    );
    assert_eq!(r.unwrap_err(), VotingError::InvalidExpirationTime);
}

#[test]
fn delegation_rejects_expiry_after_poll_end() {
    let mut poll = poll_with_criteria(open_criteria());
    let r = vote_delegation::handler(
        &mut poll,
        POLL_KEY,
        key(2),
        proof_bytes(),
        key(3),
        key(60),
        vec!["signal".to_string()],
        Some(NOW + DAY + 1),
        NOW + 10,
    );
    assert_eq!(r.unwrap_err(), VotingError::ExpirationAfterVotingEnded);
}

#[test]
fn delegation_after_end_fails() {
    let mut poll = poll_with_criteria(open_criteria());
    let r = vote_delegation::handler(
        &mut poll,
        POLL_KEY,
        key(2),
        proof_bytes(),
        key(3),
        key(60),
        vec!["signal".to_string()],
        None,
        NOW + DAY + 1,
    );
    assert_eq!(r.unwrap_err(), VotingError::VotingEnded);
}

#[test]
fn cast_and_delegation_nullifiers_share_one_namespace() {
    let mut poll = poll_with_criteria(open_criteria());
    vote_delegation::handler(
        &mut poll,
        POLL_KEY,
        key(2),
        proof_bytes(),
        key(3),
        key(60),
        vec!["signal".to_string()],
        None,
        NOW + 10,
    )
    .unwrap();
    // The delegator's nullifier can no longer cast...
    let r = cast_vote::handler(
        &mut poll,
        POLL_KEY,
        0,
        proof_bytes(),
        key(60),
        vec!["signal".to_string()],
        None,
        NOW + 20,
    );
    assert_eq!(r.unwrap_err(), VotingError::NullifierAlreadyUsed);
    // ...nor delegate again.
    let r = vote_delegation::handler(
        &mut poll,
        POLL_KEY,
        key(2),
        proof_bytes(),
        key(4),
        key(60),
        vec!["signal".to_string()],
        None,
        NOW + 30,
    );
    assert_eq!(r.unwrap_err(), VotingError::NullifierAlreadyUsed);
}

#[test]
fn award_badge_requires_platform_authority() {
    let voting = initialize::handler(key(1), NOW);
    let r = award_badge::handler(
        &voting,
        key(2),
        BadgeType::FirstVote,
        key(3),
        "first vote".to_string(),
        NOW + 10,
    );
    assert_eq!(r.unwrap_err(), VotingError::UnauthorizedAccess);
}

#[test]
fn award_badge_rejects_long_payload() {
    let voting = initialize::handler(key(1), NOW);
    let r = award_badge::handler(
        &voting,
        key(1),
        BadgeType::FirstVote,
        key(3),
        "x".repeat(201),
        NOW + 10,
    );
    assert_eq!(r.unwrap_err(), VotingError::DataTooLong);
}

#[test]
fn award_badge_produces_active_badge() {
    let voting = initialize::handler(key(1), NOW);
    let (badge, event) = award_badge::handler(
        &voting,
        key(1),
        BadgeType::Auditor,
        key(3),
        "audited three polls".to_string(),
        NOW + 10,
    )
    .unwrap();
    assert_eq!(badge.badge_type, BadgeType::Auditor);
    assert_eq!(badge.recipient, key(3));
    assert_eq!(badge.awarded_at, NOW + 10);
    assert!(badge.is_active);
    assert_eq!(event.data, "audited three polls");
}

fn fresh_user() -> User {
    User {
        pubkey: key(5),
        did_identifier: None,
        total_votes_cast: 0,
        total_polls_created: 0,
        total_delegations_given: 0,
        total_delegations_received: 0,
        reputation_score: 0,
        is_verified: false,
        verification_level: 0,
        created_at: NOW,
        last_activity: NOW,
        preferred_language: None,
        location_hash: None,
        badges_earned: Vec::new(),
        is_active: true,
    }
}

#[test]
fn add_badge_ignores_duplicates() {
    let mut user = fresh_user();
    user.add_badge(BadgeType::FirstVote);
    user.add_badge(BadgeType::Delegate);
    user.add_badge(BadgeType::FirstVote);
    assert_eq!(user.badges_earned, vec![BadgeType::FirstVote, BadgeType::Delegate]);
}

#[test]
fn update_activity_stamps_time() {
    let mut user = fresh_user();
    user.update_activity(NOW + 777);
    assert_eq!(user.last_activity, NOW + 777);
}

#[test]
fn reputation_weighs_counters_and_badges() {
    let mut user = fresh_user();
    user.total_votes_cast = 4;
    user.total_polls_created = 2;
    user.total_delegations_received = 3;
    user.add_badge(BadgeType::FirstVote);
    user.add_badge(BadgeType::PollCreator);
    // 4 * 10 + 2 * 50 + 3 * 5 + 2 * 25 = 205.
    assert_eq!(user.calculate_reputation(), 205);
}
