//! A batched settlement engine for a staking share token.
//!
//! Deposits and redemptions are pooled into batches, each batch is settled
//! against one staking venue in a round, and the proceeds are handed back to
//! the contributing accounts at the exchange rate that the round fixed.

pub mod domain;
pub mod errors;
pub mod math;
pub mod config;
pub mod interface;
pub mod laws;
pub mod contract;
