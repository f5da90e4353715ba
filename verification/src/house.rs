//! The bankroll manager: configuration, bet sizing and solvency enforcement.
//!
//! The configuration is an explicitly passed handle, so several independent
//! bankrolls can live in one process. The pool balance itself is held by the
//! external ledger; every check here takes the then-current balance as a
//! plain value. Solvency is checked once, at game start, against that
//! point-in-time balance: the engine relies on bet-size caps and does not
//! reserve funds per game.

use vstd::prelude::*;

use crate::errors::DegenRouletteError;
use crate::payout::{spec_max_multiplier, spec_payout_amount, multiplier_for, scale_by_multiplier, CHAMBERS};

verus! {

/// Basis points in a whole: the unit of `max_bet_bps` and `house_edge_bps`.
pub const BPS_DENOMINATOR: u16 = 10000;

/// The default minimum stake of a fresh bankroll.
pub const DEFAULT_MIN_BET: u64 = 10_000_000;

/// The default bet cap of a fresh bankroll, in basis points of the pool.
pub const DEFAULT_MAX_BET_BPS: u16 = 1000;

/// The default house edge of a fresh bankroll, in basis points.
pub const DEFAULT_HOUSE_EDGE_BPS: u16 = 300;

/// The process-wide bankroll configuration: owner identity, bet limits, the
/// pause gate and lifetime counters.
pub struct HouseConfig {
    /// The owner identity, as 32 raw key bytes.
    pub authority: [u8; 32],
    /// The smallest accepted stake.
    pub min_bet: u64,
    /// The bet cap as basis points of the current pool balance.
    pub max_bet_bps: u16,
    /// The calibrated house edge, in basis points; informational.
    pub house_edge_bps: u16,
    /// When set, every stake- or payout-creating operation is rejected.
    pub paused: bool,
    /// Lifetime number of settled games.
    pub total_games: u64,
    /// Lifetime volume wagered, in stake units.
    pub total_volume: u64,
}

impl HouseConfig {
    /// Both percentage fields are within `[0, BPS_DENOMINATOR]`.
    pub open spec fn wf(self) -> bool {
        &&& self.max_bet_bps <= BPS_DENOMINATOR
        &&& self.house_edge_bps <= BPS_DENOMINATOR
    }
}

/// The largest stake a pool balance admits: `pool_balance * max_bet_bps /
/// 10000`, as an unbounded integer so that overflow can be stated exactly.
pub open spec fn spec_max_bet(pool_balance: u64, max_bet_bps: u16) -> int {
    (pool_balance * max_bet_bps) / (BPS_DENOMINATOR as int)
}

/// The worst-case payout a stake can earn: the stake at the table's largest
/// multiplier.
pub open spec fn spec_worst_case_payout(bet_amount: u64) -> int {
    spec_payout_amount(bet_amount, spec_max_multiplier())
}

/// Creates a fresh bankroll configuration with the default limits, unpaused,
/// with zeroed lifetime counters, owned by `authority`.
pub fn initialize_house(authority: [u8; 32]) -> (config: HouseConfig)
    ensures
        config.authority == authority,
        config.min_bet == DEFAULT_MIN_BET,
        config.max_bet_bps == DEFAULT_MAX_BET_BPS,
        config.house_edge_bps == DEFAULT_HOUSE_EDGE_BPS,
        !config.paused,
        config.total_games == 0,
        config.total_volume == 0,
        config.wf(),
{
    HouseConfig {
        authority,
        min_bet: DEFAULT_MIN_BET,
        max_bet_bps: DEFAULT_MAX_BET_BPS,
        house_edge_bps: DEFAULT_HOUSE_EDGE_BPS,
        paused: false,
        total_games: 0,
        total_volume: 0,
    }
}

/// Why `check_and_size_bet` rejects a stake, if it does.
pub open spec fn spec_bet_sizing_error(
    config: HouseConfig,
    bet_amount: u64,
    pool_balance: u64,
) -> Option<DegenRouletteError> {
    if bet_amount < config.min_bet {
        Some(DegenRouletteError::BetTooLow)
    } else if spec_max_bet(pool_balance, config.max_bet_bps) > u64::MAX {
        Some(DegenRouletteError::ArithmeticOverflow)
    } else if bet_amount > spec_max_bet(pool_balance, config.max_bet_bps) {
        Some(DegenRouletteError::BetTooHigh)
    } else {
        None
    }
}

/// Checks a stake against the configured minimum and the pool-relative cap.
///
/// Fails `BetTooLow` below `min_bet`; computes `pool_balance * max_bet_bps /
/// 10000` with a wide intermediate, failing `ArithmeticOverflow` when the
/// result does not fit a `u64`; fails `BetTooHigh` above that cap.
pub fn check_and_size_bet(config: &HouseConfig, bet_amount: u64, pool_balance: u64) -> (r: Result<
    (),
    DegenRouletteError,
>)
    ensures
        match r {
            Ok(()) => spec_bet_sizing_error(*config, bet_amount, pool_balance) is None,
            Err(e) => spec_bet_sizing_error(*config, bet_amount, pool_balance) == Some(e),
        },
{
    if bet_amount < config.min_bet {
        return Err(DegenRouletteError::BetTooLow);
    }
    proof {
        lemma_mul_bounds_wide(pool_balance as int, config.max_bet_bps as int);
    }
    let wide: u128 = (pool_balance as u128) * (config.max_bet_bps as u128);
    let max_bet: u128 = wide / (BPS_DENOMINATOR as u128);
    if max_bet > u64::MAX as u128 {
        return Err(DegenRouletteError::ArithmeticOverflow);
    }
    if bet_amount as u128 > max_bet {
        return Err(DegenRouletteError::BetTooHigh);
    }
    Ok(())
}

/// Why `check_solvency` rejects a stake, if it does.
pub open spec fn spec_solvency_error(bet_amount: u64, pool_balance: u64) -> Option<
    DegenRouletteError,
> {
    if spec_worst_case_payout(bet_amount) > u64::MAX {
        Some(DegenRouletteError::ArithmeticOverflow)
    } else if pool_balance < spec_worst_case_payout(bet_amount) {
        Some(DegenRouletteError::InsufficientHouseBalance)
    } else {
        None
    }
}

/// Checks that the pool can cover the worst-case payout of a stake.
///
/// The worst case is the stake at the table's largest multiplier, computed
/// with the same wide-intermediate discipline; fails `ArithmeticOverflow`
/// when it does not fit a `u64` and `InsufficientHouseBalance` when the pool
/// balance is below it.
pub fn check_solvency(bet_amount: u64, pool_balance: u64) -> (r: Result<(), DegenRouletteError>)
    ensures
        match r {
            Ok(()) => spec_solvency_error(bet_amount, pool_balance) is None,
            Err(e) => spec_solvency_error(bet_amount, pool_balance) == Some(e),
        },
{
    let max_multiplier = match multiplier_for(CHAMBERS - 1) {
        Ok(m) => m,
        Err(e) => {
            return Err(e);
        },
    };
    let worst_case = match scale_by_multiplier(bet_amount, max_multiplier) {
        Ok(w) => w,
        Err(e) => {
            return Err(e);
        },
    };
    if pool_balance < worst_case {
        return Err(DegenRouletteError::InsufficientHouseBalance);
    }
    Ok(())
}

/// Rejects with `HousePaused` exactly when the pause gate is set; every
/// stake-creating or payout-creating operation calls this first.
pub fn require_not_paused(config: &HouseConfig) -> (r: Result<(), DegenRouletteError>)
    ensures
        r == if config.paused {
            Err::<(), DegenRouletteError>(DegenRouletteError::HousePaused)
        } else {
            Ok::<(), DegenRouletteError>(())
        },
{
    if config.paused {
        Err(DegenRouletteError::HousePaused)
    } else {
        Ok(())
    }
}

/// Whether an `update_config` request is within bounds.
pub open spec fn spec_config_update_valid(max_bet_bps: Option<u16>, house_edge_bps: Option<u16>) -> bool {
    &&& (max_bet_bps matches Some(bps) ==> bps <= BPS_DENOMINATOR)
    &&& (house_edge_bps matches Some(bps) ==> bps <= BPS_DENOMINATOR)
}

/// Applies an owner's configuration update.
///
/// Each `Some` field replaces the current value; percentage fields are
/// bounds-checked to `[0, 10000]` and an out-of-bounds request fails
/// `InvalidConfig` with the configuration left untouched.
pub fn update_config(
    config: &mut HouseConfig,
    min_bet: Option<u64>,
    max_bet_bps: Option<u16>,
    house_edge_bps: Option<u16>,
) -> (r: Result<(), DegenRouletteError>)
    ensures
        match r {
            Ok(()) => {
                &&& spec_config_update_valid(max_bet_bps, house_edge_bps)
                &&& final (config).min_bet == (match min_bet {
                    Some(m) => m,
                    None => old(config).min_bet,
                })
                &&& final (config).max_bet_bps == (match max_bet_bps {
                    Some(b) => b,
                    None => old(config).max_bet_bps,
                })
                &&& final (config).house_edge_bps == (match house_edge_bps {
                    Some(b) => b,
                    None => old(config).house_edge_bps,
                })
                &&& final (config).authority == old(config).authority
                &&& final (config).paused == old(config).paused
                &&& final (config).total_games == old(config).total_games
                &&& final (config).total_volume == old(config).total_volume
            },
            Err(e) => {
                &&& !spec_config_update_valid(max_bet_bps, house_edge_bps)
                &&& e == DegenRouletteError::InvalidConfig
                &&& *final (config) == *old(config)
            },
        },
        old(config).wf() ==> final (config).wf(),
{
    if let Some(bps) = max_bet_bps {
        if bps > BPS_DENOMINATOR {
            return Err(DegenRouletteError::InvalidConfig);
        }
    }
    if let Some(bps) = house_edge_bps {
        if bps > BPS_DENOMINATOR {
            return Err(DegenRouletteError::InvalidConfig);
        }
    }
    if let Some(m) = min_bet {
        config.min_bet = m;
    }
    if let Some(b) = max_bet_bps {
        config.max_bet_bps = b;
    }
    if let Some(b) = house_edge_bps {
        config.house_edge_bps = b;
    }
    Ok(())
}

/// Sets the pause gate; everything else is left as it was.
pub fn pause(config: &mut HouseConfig)
    ensures
        final (config).paused,
        *final (config) == (HouseConfig { paused: true, ..*old(config) }),
{
    config.paused = true;
}

/// Clears the pause gate; everything else is left as it was.
pub fn unpause(config: &mut HouseConfig)
    ensures
        !final (config).paused,
        *final (config) == (HouseConfig { paused: false, ..*old(config) }),
{
    config.paused = false;
}

/// The product of a `u64` and a `u16` fits a `u128`.
proof fn lemma_mul_bounds_wide(a: int, b: int)
    requires
        0 <= a <= u64::MAX,
        0 <= b <= u16::MAX,
    ensures
        a * b <= u64::MAX * u16::MAX,
{
    assert(a * b <= u64::MAX * u16::MAX) by (nonlinear_arith)
        requires
            0 <= a <= u64::MAX,
            0 <= b <= u16::MAX,
    ;
}

/// A stake within every limit is accepted by the sizing check: `check_and_
/// size_bet` returns no error for any `bet_amount` between `min_bet` and the
/// computed pool cap, whenever the cap percentage is within bounds.
pub proof fn lemma_sizing_accepts_valid_bets(config: HouseConfig, bet_amount: u64, pool_balance: u64)
    requires
        config.wf(),
        config.min_bet <= bet_amount,
        bet_amount <= spec_max_bet(pool_balance, config.max_bet_bps),
    ensures
        spec_bet_sizing_error(config, bet_amount, pool_balance) is None,
{
    lemma_max_bet_within_pool(pool_balance, config.max_bet_bps);
}

/// One unit above the computed cap is rejected as too high: for a stake at
/// least `min_bet` and exactly `spec_max_bet + 1`, the sizing check fails
/// `BetTooHigh`.
pub proof fn lemma_sizing_rejects_oversized_bet(
    config: HouseConfig,
    bet_amount: u64,
    pool_balance: u64,
)
    requires
        config.wf(),
        config.min_bet <= bet_amount,
        bet_amount == spec_max_bet(pool_balance, config.max_bet_bps) + 1,
    ensures
        spec_bet_sizing_error(config, bet_amount, pool_balance) == Some(
            DegenRouletteError::BetTooHigh,
        ),
{
    lemma_max_bet_within_pool(pool_balance, config.max_bet_bps);
}

/// With the cap percentage within bounds, the computed cap never exceeds the
/// pool balance itself, so its `u64` downcast cannot overflow.
pub proof fn lemma_max_bet_within_pool(pool_balance: u64, max_bet_bps: u16)
    requires
        max_bet_bps <= BPS_DENOMINATOR,
    ensures
        0 <= spec_max_bet(pool_balance, max_bet_bps) <= pool_balance,
{
    assert(pool_balance * max_bet_bps <= pool_balance * (BPS_DENOMINATOR as int))
        by (nonlinear_arith)
        requires
            0 <= pool_balance,
            max_bet_bps <= BPS_DENOMINATOR,
    ;
    assert(pool_balance * (BPS_DENOMINATOR as int) / (BPS_DENOMINATOR as int) == pool_balance)
        by (nonlinear_arith);
    assert(pool_balance * max_bet_bps / (BPS_DENOMINATOR as int) <= pool_balance * (
    BPS_DENOMINATOR as int) / (BPS_DENOMINATOR as int)) by (nonlinear_arith)
        requires
            pool_balance * max_bet_bps <= pool_balance * (BPS_DENOMINATOR as int),
    ;
    assert(0 <= pool_balance * max_bet_bps / (BPS_DENOMINATOR as int)) by (nonlinear_arith)
        requires
            0 <= pool_balance * max_bet_bps,
    ;
    assert(0 <= pool_balance * max_bet_bps) by (nonlinear_arith)
        requires
            0 <= pool_balance,
            0 <= max_bet_bps,
    ;
}

} // verus!
