//! The player statistics ledger: a purely additive aggregate, written on
//! every settlement and never read by the state machine to gate behaviour.

use vstd::prelude::*;

use crate::errors::DegenRouletteError;

verus! {

/// One player's lifetime aggregate, keyed by the same identity as the
/// player's game record.
#[derive(Debug)]
pub struct PlayerStats {
    /// The player identity, as 32 raw key bytes.
    pub player: [u8; 32],
    /// Number of settled games.
    pub total_games: u64,
    /// Sum of all stakes ever settled.
    pub total_wagered: u64,
    /// Sum of all payouts ever received.
    pub total_won: u64,
    /// Signed lifetime profit; goes negative on losses.
    pub total_profit: i64,
    /// The most rounds ever survived on a winning game.
    pub best_streak: u8,
}

/// Creates the zeroed aggregate for a player's first game.
pub fn initialize_player_stats(player: [u8; 32]) -> (stats: PlayerStats)
    ensures
        stats.player == player,
        stats.total_games == 0,
        stats.total_wagered == 0,
        stats.total_won == 0,
        stats.total_profit == 0,
        stats.best_streak == 0,
{
    PlayerStats { player, total_games: 0, total_wagered: 0, total_won: 0, total_profit: 0, best_streak: 0 }
}

/// Whether accumulating one settlement of `bet_amount` and `payout` into
/// `stats` would overflow any counter. The profit delta is accumulated as a
/// signed 64-bit value, so both amounts must also fit `i64`.
pub open spec fn spec_settlement_overflows(stats: PlayerStats, bet_amount: u64, payout: u64) -> bool {
    ||| stats.total_games + 1 > u64::MAX
    ||| stats.total_wagered + bet_amount > u64::MAX
    ||| stats.total_won + payout > u64::MAX
    ||| payout > i64::MAX
    ||| bet_amount > i64::MAX
    ||| stats.total_profit + payout - bet_amount > i64::MAX
    ||| stats.total_profit + payout - bet_amount < i64::MIN
}

/// How one settlement advances the aggregate: one more game, the stake added
/// to the wagered total, the payout added to the won total, the signed
/// difference added to the profit, and the streak raised on a win.
pub open spec fn spec_settlement_applied(
    pre: PlayerStats,
    post: PlayerStats,
    bet_amount: u64,
    payout: u64,
    rounds_survived: u8,
    won: bool,
) -> bool {
    &&& post.player == pre.player
    &&& post.total_games == pre.total_games + 1
    &&& post.total_wagered == pre.total_wagered + bet_amount
    &&& post.total_won == pre.total_won + payout
    &&& post.total_profit == pre.total_profit + payout - bet_amount
    &&& post.best_streak == (if won && rounds_survived > pre.best_streak {
        rounds_survived
    } else {
        pre.best_streak
    })
}

/// Computes the aggregate after one settlement without touching the stored
/// one; fails `ArithmeticOverflow` exactly when a counter would not fit.
pub fn settled_stats(
    stats: &PlayerStats,
    bet_amount: u64,
    payout: u64,
    rounds_survived: u8,
    won: bool,
) -> (r: Result<PlayerStats, DegenRouletteError>)
    ensures
        match r {
            Ok(post) => {
                &&& !spec_settlement_overflows(*stats, bet_amount, payout)
                &&& spec_settlement_applied(*stats, post, bet_amount, payout, rounds_survived, won)
            },
            Err(e) => {
                &&& spec_settlement_overflows(*stats, bet_amount, payout)
                &&& e == DegenRouletteError::ArithmeticOverflow
            },
        },
{
    let total_games = match stats.total_games.checked_add(1) {
        Some(v) => v,
        None => {
            return Err(DegenRouletteError::ArithmeticOverflow);
        },
    };
    let total_wagered = match stats.total_wagered.checked_add(bet_amount) {
        Some(v) => v,
        None => {
            return Err(DegenRouletteError::ArithmeticOverflow);
        },
    };
    let total_won = match stats.total_won.checked_add(payout) {
        Some(v) => v,
        None => {
            return Err(DegenRouletteError::ArithmeticOverflow);
        },
    };
    if payout > i64::MAX as u64 || bet_amount > i64::MAX as u64 {
        return Err(DegenRouletteError::ArithmeticOverflow);
    }
    let delta = match (payout as i64).checked_sub(bet_amount as i64) {
        Some(v) => v,
        None => {
            return Err(DegenRouletteError::ArithmeticOverflow);
        },
    };
    let total_profit = match stats.total_profit.checked_add(delta) {
        Some(v) => v,
        None => {
            return Err(DegenRouletteError::ArithmeticOverflow);
        },
    };
    let best_streak = if won && rounds_survived > stats.best_streak {
        rounds_survived
    } else {
        stats.best_streak
    };
    Ok(
        PlayerStats {
            player: stats.player,
            total_games,
            total_wagered,
            total_won,
            total_profit,
            best_streak,
        },
    )
}

/// Accumulates one settlement into the stored aggregate.
///
/// All accumulations are overflow-checked; on `ArithmeticOverflow` the
/// aggregate is left untouched.
pub fn record_settlement(
    stats: &mut PlayerStats,
    bet_amount: u64,
    payout: u64,
    rounds_survived: u8,
    won: bool,
) -> (r: Result<(), DegenRouletteError>)
    ensures
        match r {
            Ok(()) => {
                &&& !spec_settlement_overflows(*old(stats), bet_amount, payout)
                &&& spec_settlement_applied(
                    *old(stats),
                    *final (stats),
                    bet_amount,
                    payout,
                    rounds_survived,
                    won,
                )
            },
            Err(e) => {
                &&& spec_settlement_overflows(*old(stats), bet_amount, payout)
                &&& e == DegenRouletteError::ArithmeticOverflow
                &&& *final (stats) == *old(stats)
            },
        },
{
    match settled_stats(stats, bet_amount, payout, rounds_survived, won) {
        Ok(post) => {
            *stats = post;
            Ok(())
        },
        Err(e) => Err(e),
    }
}

/// The profit aggregate stays exact through any settlement: whenever
/// `total_profit == total_won - total_wagered` holds before a settlement is
/// accumulated, it holds after, so by induction it holds after any number of
/// settlements of a fresh aggregate, for any interleaving of wins and losses.
pub proof fn lemma_profit_aggregate_exact(
    pre: PlayerStats,
    post: PlayerStats,
    bet_amount: u64,
    payout: u64,
    rounds_survived: u8,
    won: bool,
)
    requires
        pre.total_profit == pre.total_won - pre.total_wagered,
        spec_settlement_applied(pre, post, bet_amount, payout, rounds_survived, won),
    ensures
        post.total_profit == post.total_won - post.total_wagered,
{
}

} // verus!
