pub mod award_badge;
pub mod cast_vote;
pub mod close_poll;
pub mod create_poll;
pub mod initialize;
pub mod recast_vote;
pub mod vote_delegation;
