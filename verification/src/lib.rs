//! A provably-fair, sequential-risk wagering engine backed by a pooled
//! bankroll.
//!
//! A player stakes an amount; a randomness source fixes a fatal "bullet"
//! chamber; surviving rounds pays an escalating multiplier out of the shared
//! pool. The engine covers bankroll risk sizing and solvency enforcement, the
//! per-player game state machine (including commit/reveal and oracle-based
//! fairness verification), payout computation, and player statistics
//! aggregation. Persistent storage, caller authentication, currency transfer
//! execution and event emission are the embedding environment's concern: the
//! engine takes plain values in and hands plain values back.

pub mod errors;
pub mod game;
pub mod house;
pub mod payout;
pub mod rng;
pub mod stats;
