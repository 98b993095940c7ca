use globalvote::error::VotingError;
use globalvote::instructions::{cast_vote, close_poll, create_poll, recast_vote};
use globalvote::state::{EligibilityCriteria, PollType, Poll, QuadraticParameters, Vote};

const NOW: i64 = 1_000;
const DAY: i64 = 86_400;
const POLL_KEY: [u8; 32] = [9; 32];

fn open_criteria() -> EligibilityCriteria {
    EligibilityCriteria {
        min_age: None,
        required_location: None,
        required_citizenship: None,
        custom_criteria: Vec::new(),
        require_did: false,
    }
}

fn labels(n: usize) -> Vec<String> {
    let mut v = Vec::new();
    for i in 0..n {
        v.push(format!("option {}", i));
    }
    v
}

fn key(b: u8) -> [u8; 32] {
    [b; 32]
}

fn proof_bytes() -> Vec<u8> {
    vec![7; 64]
}

fn signals() -> Vec<String> {
    vec!["signal".to_string()]
}

fn plain_poll(allow_recast: bool, max_voters: Option<u64>) -> Poll {
    create_poll::handler(
        key(1),
        "city budget".to_string(),
        labels(3),
        "which project should be funded".to_string(),
        open_criteria(),
        NOW,
        NOW + DAY,
        max_voters,
        PollType::MultiChoice,
        false,
        None,
        allow_recast,
        if allow_recast { Some(3_600) } else { None },
        POLL_KEY,
        NOW,
    )
    .unwrap()
    .0
}

fn quadratic_poll(curve: Vec<u64>, max_credits: u64) -> Poll {
    create_poll::handler(
        key(1),
        "quadratic poll".to_string(),
        labels(3),
        "weighted".to_string(),
        open_criteria(),
        NOW,
        NOW + DAY,
        None,
        PollType::Quadratic,
        false,
        Some(QuadraticParameters { credit_cost_curve: curve, max_credits }),
        true,
        None,
        POLL_KEY,
        NOW,
    )
    .unwrap()
    .0
}

fn cast(
    poll: &mut Poll,
    choice: u8,
    nullifier: [u8; 32],
    weight: Option<u64>,
    now: i64,
) -> Result<(Vote, globalvote::state::VoterNullifier, cast_vote::VoteCast), VotingError> {
    cast_vote::handler(poll, POLL_KEY, choice, proof_bytes(), nullifier, signals(), weight, now)
}

fn tally_sum(poll: &Poll) -> u64 {
    let mut total: u64 = 0;
    for c in &poll.vote_counts {
        total += *c;
    }
    total
}

#[test]
fn cast_records_weight_and_nullifier() {
    let mut poll = plain_poll(false, None);
    let (vote, voter_nullifier, event) = cast(&mut poll, 1, key(50), Some(3), NOW + 10).unwrap();
    assert_eq!(poll.total_votes, 3);
    assert_eq!(poll.unique_voters, 1);
    assert_eq!(poll.vote_counts, vec![0, 3, 0]);
    assert_eq!(poll.nullifier_hashes, vec![key(50)]);
    assert_eq!(poll.updated_at, NOW + 10);
    assert_eq!(vote.poll, POLL_KEY);
    assert_eq!(vote.nullifier_hash, key(50));
    assert_eq!(vote.vote_choice, 1);
    assert_eq!(vote.vote_weight, 3);
    assert_eq!(vote.timestamp, NOW + 10);
    assert_eq!(vote.delegate_from, None);
    assert!(!vote.delegate_to);
    assert_eq!(voter_nullifier.poll, POLL_KEY);
    assert_eq!(voter_nullifier.nullifier_hash, key(50));
    assert_eq!(event.vote_choice, 1);
    assert_eq!(event.vote_weight, 3);
    assert_eq!(event.total_votes, 3);
    assert_eq!(event.nullifier_hash, key(50));
}

#[test]
fn cast_defaults_to_weight_one() {
    let mut poll = plain_poll(false, None);
    let (vote, _, _) = cast(&mut poll, 0, key(50), None, NOW + 10).unwrap();
    assert_eq!(vote.vote_weight, 1);
    assert_eq!(poll.total_votes, 1);
}

#[test]
fn cast_stores_proof_digest_not_proof() {
    let mut poll = plain_poll(false, None);
    let (vote, _, _) = cast_vote::handler(
        &mut poll,
        POLL_KEY,
        0,
        vec![0; 32],
        key(50),
        signals(),
        None,
        NOW + 10,
    )
    .unwrap();
    assert_ne!(vote.zk_proof_hash, [0u8; 32]);
}

#[test]
fn quadratic_cast_counts_squared_weight_within_ceiling() {
    // Requested weight 5 costs 25 credits, within the ceiling of 100.
    let mut poll = quadratic_poll(vec![1; 10], 100);
    let (vote, _, _) = cast(&mut poll, 0, key(50), Some(5), NOW + 10).unwrap();
    assert_eq!(vote.vote_weight, 25);
    assert_eq!(poll.vote_counts, vec![25, 0, 0]);
    assert_eq!(poll.total_votes, 25);
}

#[test]
fn quadratic_cast_rejects_weight_over_ceiling() {
    // Requested weight 11 costs 121 credits, over the ceiling of 100.
    let mut poll = quadratic_poll(vec![1; 10], 100);
    let r = cast(&mut poll, 0, key(50), Some(11), NOW + 10);
    assert_eq!(r.unwrap_err(), VotingError::InsufficientCredits);
    assert_eq!(poll.total_votes, 0);
    assert_eq!(poll.unique_voters, 0);
}

#[test]
fn quadratic_cast_rejects_zero_weight() {
    let mut poll = quadratic_poll(vec![1; 10], 100);
    let r = cast(&mut poll, 0, key(50), Some(0), NOW + 10);
    assert_eq!(r.unwrap_err(), VotingError::InvalidVoteWeight);
}

#[test]
fn cast_after_end_time_fails_with_voting_ended() {
    let mut poll = plain_poll(false, None);
    let before = poll.clone();
    let r = cast(&mut poll, 0, key(50), Some(1), NOW + DAY + 1);
    assert_eq!(r.unwrap_err(), VotingError::VotingEnded);
    assert_eq!(poll.total_votes, before.total_votes);
    assert_eq!(poll.vote_counts, before.vote_counts);
    assert_eq!(poll.unique_voters, before.unique_voters);
}

#[test]
fn cast_after_end_time_fails_even_with_bad_proof() {
    // The voting-ended error wins over proof validity in either direction.
    let mut poll = plain_poll(false, None);
    let r = cast_vote::handler(
        &mut poll,
        POLL_KEY,
        0,
        Vec::new(),
        key(50),
        signals(),
        None,
        NOW + DAY + 1,
    );
    assert_eq!(r.unwrap_err(), VotingError::VotingEnded);
}

#[test]
fn cast_on_pending_poll_fails() {
    let mut poll = create_poll::handler(
        key(1),
        "later".to_string(),
        labels(2),
        "d".to_string(),
        open_criteria(),
        NOW + 100,
        NOW + 100 + DAY,
        None,
        PollType::MultiChoice,
        false,
        None,
        false,
        None,
        POLL_KEY,
        NOW,
    )
    .unwrap()
    .0;
    let r = cast(&mut poll, 0, key(50), None, NOW + 10);
    assert_eq!(r.unwrap_err(), VotingError::PollNotActive);
}

#[test]
fn duplicate_nullifier_is_rejected_and_tallies_unchanged() {
    let mut poll = plain_poll(false, None);
    cast(&mut poll, 0, key(50), Some(4), NOW + 10).unwrap();
    let after_first = poll.clone();
    let r = cast(&mut poll, 1, key(50), Some(9), NOW + 20);
    assert_eq!(r.unwrap_err(), VotingError::NullifierAlreadyUsed);
    assert_eq!(poll.vote_counts, after_first.vote_counts);
    assert_eq!(poll.total_votes, after_first.total_votes);
    assert_eq!(poll.unique_voters, after_first.unique_voters);
    assert_eq!(poll.nullifier_hashes, after_first.nullifier_hashes);
    assert_eq!(poll.updated_at, after_first.updated_at);
}

#[test]
fn cast_rejects_out_of_range_choice() {
    let mut poll = plain_poll(false, None);
    let r = cast(&mut poll, 3, key(50), None, NOW + 10);
    assert_eq!(r.unwrap_err(), VotingError::InvalidVoteChoice);
}

#[test]
fn cast_rejects_empty_proof() {
    let mut poll = plain_poll(false, None);
    let r = cast_vote::handler(&mut poll, POLL_KEY, 0, Vec::new(), key(50), signals(), None, NOW + 10);
    assert_eq!(r.unwrap_err(), VotingError::InvalidZkProof);
}

#[test]
fn cast_rejects_short_and_long_proofs() {
    let mut poll = plain_poll(false, None);
    let r = cast_vote::handler(&mut poll, POLL_KEY, 0, vec![7; 31], key(50), signals(), None, NOW + 10);
    assert_eq!(r.unwrap_err(), VotingError::InvalidZkProof);
    let r = cast_vote::handler(&mut poll, POLL_KEY, 0, vec![7; 1025], key(51), signals(), None, NOW + 10);
    assert_eq!(r.unwrap_err(), VotingError::InvalidZkProof);
}

#[test]
fn cast_rejects_empty_signals() {
    let mut poll = plain_poll(false, None);
    let r = cast_vote::handler(&mut poll, POLL_KEY, 0, proof_bytes(), key(50), Vec::new(), None, NOW + 10);
    assert_eq!(r.unwrap_err(), VotingError::InvalidZkProof);
}

#[test]
fn cast_respects_max_voters_cap() {
    let mut poll = plain_poll(false, Some(1));
    cast(&mut poll, 0, key(50), None, NOW + 10).unwrap();
    let r = cast(&mut poll, 0, key(51), None, NOW + 20);
    assert_eq!(r.unwrap_err(), VotingError::VotingNotAllowed);
}

#[test]
fn total_votes_always_equals_tally_sum() {
    let mut poll = quadratic_poll(vec![1; 10], 100);
    assert_eq!(poll.total_votes, tally_sum(&poll));
    cast(&mut poll, 0, key(50), Some(5), NOW + 10).unwrap();
    assert_eq!(poll.total_votes, tally_sum(&poll));
    cast(&mut poll, 1, key(51), Some(3), NOW + 20).unwrap();
    assert_eq!(poll.total_votes, tally_sum(&poll));
    let (mut vote, _, _) = cast(&mut poll, 2, key(52), Some(2), NOW + 30).unwrap();
    assert_eq!(poll.total_votes, tally_sum(&poll));
    recast_vote::handler(
        &mut poll,
        &mut vote,
        POLL_KEY,
        0,
        proof_bytes(),
        key(52),
        signals(),
        Some(7),
        NOW + 40,
    )
    .unwrap();
    assert_eq!(poll.total_votes, tally_sum(&poll));
}

#[test]
fn recast_moves_weight_between_choices() {
    // Cast counts 25 on choice 0; the recast counts 7 on choice 1:
    // choice 0 loses 25, choice 1 gains 7, the total moves by -18,
    // and the voter count stays put.
    let mut poll = quadratic_poll(vec![1; 10], 100);
    let (mut vote, _, _) = cast(&mut poll, 0, key(50), Some(5), NOW + 10).unwrap();
    assert_eq!(poll.vote_counts, vec![25, 0, 0]);
    let event = recast_vote::handler(
        &mut poll,
        &mut vote,
        POLL_KEY,
        1,
        proof_bytes(),
        key(50),
        signals(),
        Some(7),
        NOW + 20,
    )
    .unwrap();
    assert_eq!(poll.vote_counts, vec![0, 7, 0]);
    assert_eq!(poll.total_votes, 7);
    assert_eq!(poll.unique_voters, 1);
    assert_eq!(poll.nullifier_hashes, vec![key(50)]);
    assert_eq!(vote.vote_choice, 1);
    assert_eq!(vote.vote_weight, 7);
    assert_eq!(vote.timestamp, NOW + 20);
    assert_eq!(event.old_vote_choice, 0);
    assert_eq!(event.old_vote_weight, 25);
    assert_eq!(event.new_vote_choice, 1);
    assert_eq!(event.new_vote_weight, 7);
}

#[test]
fn recast_on_plain_poll_counts_weight_one() {
    let mut poll = plain_poll(true, None);
    let (mut vote, _, _) = cast(&mut poll, 0, key(50), Some(3), NOW + 10).unwrap();
    recast_vote::handler(
        &mut poll,
        &mut vote,
        POLL_KEY,
        2,
        proof_bytes(),
        key(50),
        signals(),
        None,
        NOW + 20,
    )
    .unwrap();
    assert_eq!(poll.vote_counts, vec![0, 0, 1]);
    assert_eq!(poll.total_votes, 1);
    assert_eq!(poll.unique_voters, 1);
}

#[test]
fn recast_requires_allow_recast() {
    let mut poll = plain_poll(false, None);
    let (mut vote, _, _) = cast(&mut poll, 0, key(50), None, NOW + 10).unwrap();
    let r = recast_vote::handler(
        &mut poll,
        &mut vote,
        POLL_KEY,
        1,
        proof_bytes(),
        key(50),
        signals(),
        None,
        NOW + 20,
    );
    assert_eq!(r.unwrap_err(), VotingError::RecastNotAllowed);
    assert_eq!(vote.vote_choice, 0);
}

#[test]
fn recast_fails_after_window_elapses() {
    // The window is 3600 seconds from the begin time.
    let mut poll = plain_poll(true, None);
    let (mut vote, _, _) = cast(&mut poll, 0, key(50), None, NOW + 10).unwrap();
    let r = recast_vote::handler(
        &mut poll,
        &mut vote,
        POLL_KEY,
        1,
        proof_bytes(),
        key(50),
        signals(),
        None,
        NOW + 3_601,
    );
    assert_eq!(r.unwrap_err(), VotingError::RecastWindowExpired);
}

#[test]
fn recast_rejects_mismatched_nullifier() {
    let mut poll = plain_poll(true, None);
    let (mut vote, _, _) = cast(&mut poll, 0, key(50), None, NOW + 10).unwrap();
    let r = recast_vote::handler(
        &mut poll,
        &mut vote,
        POLL_KEY,
        1,
        proof_bytes(),
        key(51),
        signals(),
        None,
        NOW + 20,
    );
    assert_eq!(r.unwrap_err(), VotingError::InvalidNullifierHash);
}

#[test]
fn quadratic_recast_requires_explicit_weight() {
    let mut poll = quadratic_poll(vec![1; 10], 100);
    let (mut vote, _, _) = cast(&mut poll, 0, key(50), Some(2), NOW + 10).unwrap();
    let r = recast_vote::handler(
        &mut poll,
        &mut vote,
        POLL_KEY,
        1,
        proof_bytes(),
        key(50),
        signals(),
        None,
        NOW + 20,
    );
    assert_eq!(r.unwrap_err(), VotingError::InvalidVoteWeight);
}

#[test]
fn quadratic_recast_charges_the_cost_curve() {
    // Curve [2, 3]: weight 4 costs 2 + 3 + 3 + 3 = 11 credits, one over a
    // ceiling of 10.
    let mut poll = quadratic_poll(vec![2, 3], 10);
    let (mut vote, _, _) = cast(&mut poll, 0, key(50), Some(3), NOW + 10).unwrap();
    let r = recast_vote::handler(
        &mut poll,
        &mut vote,
        POLL_KEY,
        1,
        proof_bytes(),
        key(50),
        signals(),
        Some(4),
        NOW + 20,
    );
    assert_eq!(r.unwrap_err(), VotingError::InsufficientCredits);
    // Weight 3 costs 2 + 3 + 3 = 8 credits, within the ceiling, and the
    // recorded weight is the requested 3, not the cost.
    let event = recast_vote::handler(
        &mut poll,
        &mut vote,
        POLL_KEY,
        1,
        proof_bytes(),
        key(50),
        signals(),
        Some(3),
        NOW + 20,
    )
    .unwrap();
    assert_eq!(event.new_vote_weight, 3);
    assert_eq!(poll.vote_counts, vec![0, 3, 0]);
}

#[test]
fn casts_then_close_report_first_of_tied_winners() {
    // Weighted casts build the tallies [3, 7, 7]; the winner is option 1,
    // the first of the tied maxima.
    let mut poll = plain_poll(false, None);
    cast(&mut poll, 0, key(50), Some(3), NOW + 10).unwrap();
    cast(&mut poll, 1, key(51), Some(7), NOW + 20).unwrap();
    cast(&mut poll, 2, key(52), Some(7), NOW + 30).unwrap();
    assert_eq!(poll.vote_counts, vec![3, 7, 7]);
    let event = close_poll::handler(&mut poll, POLL_KEY, key(1), NOW + 40).unwrap();
    assert_eq!(event.top_index, 1);
    assert_eq!(event.winner_votes, 7);
    assert_eq!(event.total_votes, 17);
    assert_eq!(event.unique_voters, 3);
}

#[test]
fn cast_on_closed_poll_fails() {
    let mut poll = plain_poll(false, None);
    close_poll::handler(&mut poll, POLL_KEY, key(1), NOW + 10).unwrap();
    let r = cast(&mut poll, 0, key(50), None, NOW + 20);
    assert_eq!(r.unwrap_err(), VotingError::PollNotActive);
}

#[test]
fn recast_after_voting_ends_fails() {
    // With no recast window configured, the poll end time is the limit.
    let mut poll = create_poll::handler(
        key(1),
        "n".to_string(),
        labels(2),
        "d".to_string(),
        open_criteria(),
        NOW,
        NOW + DAY,
        None,
        PollType::MultiChoice,
        false,
        None,
        true,
        None,
        POLL_KEY,
        NOW,
    )
    .unwrap()
    .0;
    let (mut vote, _, _) = cast(&mut poll, 0, key(50), None, NOW + 10).unwrap();
    let r = recast_vote::handler(
        &mut poll,
        &mut vote,
        POLL_KEY,
        1,
        proof_bytes(),
        key(50),
        signals(),
        None,
        NOW + DAY + 1,
    );
    assert_eq!(r.unwrap_err(), VotingError::VotingEnded);
}
