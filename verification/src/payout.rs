//! The fixed payout table and the payout computation.
//!
//! Multipliers are expressed in hundredths (100 = 1.00x) and indexed by
//! rounds survived. The table values encode a 3% house edge under the
//! fair-odds model of a six-chamber cylinder.

use vstd::prelude::*;

use crate::errors::DegenRouletteError;

verus! {

/// The fixed number of rounds in one game cycle.
pub const CHAMBERS: u8 = 6;

/// The multiplier, in hundredths, paid for surviving `rounds_survived`
/// rounds; 0 outside the valid range `1..=CHAMBERS-1`.
pub open spec fn spec_multiplier(rounds_survived: u8) -> u16 {
    if rounds_survived == 1 {
        116
    } else if rounds_survived == 2 {
        145
    } else if rounds_survived == 3 {
        194
    } else if rounds_survived == 4 {
        291
    } else if rounds_survived == 5 {
        582
    } else {
        0
    }
}

/// The largest multiplier in the table: what surviving every round pays.
pub open spec fn spec_max_multiplier() -> u16 {
    spec_multiplier((CHAMBERS - 1) as u8)
}

/// A payout in hundredths-multiplier terms: `bet_amount * multiplier / 100`,
/// as an unbounded integer so that callers can state overflow exactly.
pub open spec fn spec_payout_amount(bet_amount: u64, multiplier: u16) -> int {
    (bet_amount * multiplier) / 100
}

/// Looks up the payout multiplier for a number of survived rounds.
///
/// Rejects `rounds_survived` outside `1..=CHAMBERS-1` with
/// `InvalidRoundsSurvived`; otherwise returns the table entry.
pub fn multiplier_for(rounds_survived: u8) -> (r: Result<u16, DegenRouletteError>)
    ensures
        1 <= rounds_survived < CHAMBERS ==> r == Ok::<u16, DegenRouletteError>(
            spec_multiplier(rounds_survived),
        ),
        !(1 <= rounds_survived < CHAMBERS) ==> r == Err::<u16, DegenRouletteError>(
            DegenRouletteError::InvalidRoundsSurvived,
        ),
{
    match rounds_survived {
        1 => Ok(116),
        2 => Ok(145),
        3 => Ok(194),
        4 => Ok(291),
        5 => Ok(582),
        _ => Err(DegenRouletteError::InvalidRoundsSurvived),
    }
}

/// Multiplies a stake by a table multiplier with a wide intermediate.
///
/// Returns `bet_amount * multiplier / 100`; rejects with
/// `ArithmeticOverflow` exactly when that quantity does not fit a `u64`.
pub fn scale_by_multiplier(bet_amount: u64, multiplier: u16) -> (r: Result<
    u64,
    DegenRouletteError,
>)
    ensures
        spec_payout_amount(bet_amount, multiplier) <= u64::MAX ==> r == Ok::<
            u64,
            DegenRouletteError,
        >(spec_payout_amount(bet_amount, multiplier) as u64),
        spec_payout_amount(bet_amount, multiplier) > u64::MAX ==> r == Err::<
            u64,
            DegenRouletteError,
        >(DegenRouletteError::ArithmeticOverflow),
{
    proof {
        lemma_mul_bounds_u128(bet_amount as int, multiplier as int, u64::MAX as int, u16::MAX as int);
    }
    let wide: u128 = (bet_amount as u128) * (multiplier as u128);
    let scaled: u128 = wide / 100;
    if scaled > u64::MAX as u128 {
        Err(DegenRouletteError::ArithmeticOverflow)
    } else {
        Ok(scaled as u64)
    }
}

/// Computes the payout owed for a stake that survived the given rounds.
///
/// Rejects out-of-range rounds with `InvalidRoundsSurvived` and an
/// over-range product with `ArithmeticOverflow`; otherwise returns
/// `bet_amount * multiplier / 100`.
pub fn payout_for(bet_amount: u64, rounds_survived: u8) -> (r: Result<u64, DegenRouletteError>)
    ensures
        !(1 <= rounds_survived < CHAMBERS) ==> r == Err::<u64, DegenRouletteError>(
            DegenRouletteError::InvalidRoundsSurvived,
        ),
        1 <= rounds_survived < CHAMBERS && spec_payout_amount(
            bet_amount,
            spec_multiplier(rounds_survived),
        ) > u64::MAX ==> r == Err::<u64, DegenRouletteError>(DegenRouletteError::ArithmeticOverflow),
        1 <= rounds_survived < CHAMBERS && spec_payout_amount(
            bet_amount,
            spec_multiplier(rounds_survived),
        ) <= u64::MAX ==> r == Ok::<u64, DegenRouletteError>(
            spec_payout_amount(bet_amount, spec_multiplier(rounds_survived)) as u64,
        ),
{
    let multiplier = match multiplier_for(rounds_survived) {
        Ok(m) => m,
        Err(e) => {
            return Err(e);
        },
    };
    scale_by_multiplier(bet_amount, multiplier)
}

/// The product of two non-negative integers within given bounds stays within
/// the product of the bounds.
proof fn lemma_mul_bounds_u128(a: int, b: int, bound_a: int, bound_b: int)
    requires
        0 <= a <= bound_a,
        0 <= b <= bound_b,
    ensures
        a * b <= bound_a * bound_b,
{
    assert(a * b <= bound_a * bound_b) by (nonlinear_arith)
        requires
            0 <= a <= bound_a,
            0 <= b <= bound_b,
    ;
}

/// The payout table is strictly increasing: surviving one more round always
/// pays strictly more per unit staked.
pub proof fn lemma_multiplier_monotonic(rounds_survived: u8)
    requires
        1 <= rounds_survived < CHAMBERS - 1,
    ensures
        spec_multiplier(rounds_survived) < spec_multiplier((rounds_survived + 1) as u8),
{
}

} // verus!
