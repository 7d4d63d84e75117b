//! Escrow for a single tournament: entry fees are pooled while the tournament
//! is active and released, all at once, to one winner named by its authority.

mod error;
mod escrow;
mod identity;
mod laws;
mod slot;
mod tournament;

pub use error::ErrorCode;
pub use escrow::{
    claim_result, claim_winner, closed, created, initialize, initialize_result, join_result,
    join_tournament, joined, Claim, Initialize, Join, Payout,
};
pub use identity::Identity;
pub use laws::{
    joined_times, lemma_claim_only_once, lemma_join_adds_one_fee, lemma_pool_after_joins,
};
pub use slot::{version_check, Slot};
pub use tournament::Tournament;
