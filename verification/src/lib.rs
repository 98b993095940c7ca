//! An anti-replay voting ledger: polls with lifecycle states, one-time
//! nullifiers that prevent double counting, a quadratic cost model for
//! weighted votes, vote recasting within a bounded window, and delegation
//! of voting rights.
//!
//! All tallies are kept consistent: a poll's `total_votes` always equals the
//! sum of its per-option counts, and its `unique_voters` always equals the
//! number of nullifiers consumed by casts. Operations either fully apply or
//! leave the poll unchanged.
//!
//! A quadratic poll charges a cast the square of its requested weight
//! against the credits ceiling and records that square; a recast is charged
//! through the configured cost curve instead and records the requested
//! weight. The two cost models are deliberately kept apart, one per
//! operation.

pub mod error;
pub mod instructions;
pub mod state;
pub mod utils;
