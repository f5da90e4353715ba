//! The engine's error taxonomy.
//!
//! Every failure surfaces verbatim to the caller and commits no partial state
//! mutation; a rejected call leaves every record exactly as it was.

use vstd::prelude::*;

verus! {

/// Why a call into the engine was rejected.
#[derive(Clone, Copy, Debug, PartialEq, Eq, Structural)]
pub enum DegenRouletteError {
    /// The house is paused; no stake- or payout-creating call is accepted.
    HousePaused,
    /// The stake is below the configured minimum bet.
    BetTooLow,
    /// The stake exceeds the configured percentage of the pool balance.
    BetTooHigh,
    /// The pool cannot cover the worst-case payout of this stake.
    InsufficientHouseBalance,
    /// The record is not in a settleable state.
    GameNotActive,
    /// The record is not in the Won state, so there is nothing to cash out.
    GameNotWon,
    /// The record is already running a game and cannot be overwritten.
    GameAlreadyActive,
    /// The game's payout was already made.
    GameAlreadySettled,
    /// The record's randomness material does not fit the requested operation.
    InvalidGameStatus,
    /// A configuration percentage is out of bounds.
    InvalidConfig,
    /// A checked multiply, divide, add, subtract or downcast did not fit.
    ArithmeticOverflow,
    /// The claimed number of survived rounds is out of range.
    InvalidRoundsSurvived,
    /// The revealed seed does not hash to the stored commitment, or the
    /// supplied commitment is the all-zero sentinel.
    InvalidServerSeed,
    /// The oracle has not fulfilled the randomness request yet.
    VrfNotFulfilled,
    /// The forced-settlement timeout has not elapsed yet.
    GameNotExpired,
}

} // verus!
