//! The per-player game state machine.
//!
//! One record per player, reused across games and never destroyed: a start
//! overwrites a record that is Idle, Won or Lost; a settlement advances an
//! Active (or oracle-waiting) record to Won or Lost. Single-shot settlement
//! resolves the bullet through the configured randomness source and pays in
//! one call; the incremental mode advances a local deterministic record one
//! pull at a time and pays through an explicit cash-out; forced settlement is
//! the owner's recovery path for abandoned games.
//!
//! Every call either fully commits or fully aborts: all checks and all
//! overflow-checked arithmetic run before the first field is written.

use vstd::prelude::*;

use crate::errors::DegenRouletteError;
use crate::house::{
    check_and_size_bet, check_solvency, require_not_paused, spec_bet_sizing_error,
    spec_solvency_error, HouseConfig,
};
use crate::payout::{
    multiplier_for, scale_by_multiplier, spec_max_multiplier, spec_multiplier,
    spec_payout_amount, CHAMBERS,
};
use crate::rng::{
    all_zeroes, bullet_from_timestamp, derive_vrf_seed, fallback_outcome, is_all_zero32,
    oracle_outcome, reveal_and_derive, spec_bullet_from_timestamp, spec_fallback_outcome,
    spec_oracle_outcome, spec_reveal_outcome, spec_vrf_seed,
};
use crate::stats::{settled_stats, spec_settlement_applied, spec_settlement_overflows, PlayerStats};

verus! {

/// Lifecycle of a player's record.
#[derive(Clone, Copy, Debug, PartialEq, Eq, Structural)]
pub enum GameStatus {
    /// No game was ever started on this record.
    Idle,
    /// An oracle randomness request is outstanding.
    WaitingVrf,
    /// A game is running.
    Active,
    /// The last game was won.
    Won,
    /// The last game was lost.
    Lost,
}

/// The randomness material a record carries, fixed at start.
#[derive(Debug)]
pub enum RandomnessMaterial {
    /// Commit/reveal: the stored one-way hash of the server seed.
    Commitment([u8; 32]),
    /// External oracle: the derived randomness request seed.
    OracleSeed(Vec<u8>),
    /// Local deterministic: the bullet is fixed in the record at start.
    LocalBullet,
}

/// How a game asks to be started; selects the randomness strategy.
#[derive(Clone, Copy, Debug)]
pub enum StartRequest {
    /// Commit/reveal: the player supplies the seed's one-way hash.
    CommitReveal { commitment: [u8; 32] },
    /// External oracle: a request seed is derived from the given ledger slot.
    ExternalOracle { slot: u64 },
    /// Local deterministic: the bullet comes from the creation timestamp.
    LocalDeterministic,
}

/// The randomness evidence a single-shot settlement carries.
#[derive(Debug)]
pub enum SettleEvidence {
    /// Commit/reveal: the disclosed server seed.
    Reveal { seed: [u8; 32] },
    /// External oracle: the randomness account's bytes; empty bytes mean the
    /// oracle is not installed and select the offline fallback.
    OracleAccount { data: Vec<u8> },
    /// Local deterministic: the bullet already stored in the record.
    Stored,
}

/// One player's game record.
#[derive(Debug)]
pub struct GameState {
    /// The player identity, as 32 raw key bytes.
    pub player: [u8; 32],
    /// The stake of the current or last game.
    pub bet_amount: u64,
    /// The randomness material fixed at start.
    pub material: RandomnessMaterial,
    /// Rounds survived so far (incremental mode) or claimed at settlement.
    pub rounds_survived: u8,
    /// The fatal chamber index, once resolved; 0-based, below `CHAMBERS`.
    pub bullet_position: u8,
    /// Where the record stands in its lifecycle.
    pub status: GameStatus,
    /// The multiplier paid, in hundredths; 0 on a loss or before settlement.
    pub result_multiplier: u16,
    /// The payout made; 0 on a loss or before settlement.
    pub payout: u64,
    /// When the current or last game started.
    pub created_at: i64,
    /// When the last game settled; 0 before settlement.
    pub settled_at: i64,
}

impl GameState {
    /// The record's internal invariant: the bullet and round count stay
    /// within the cylinder, a running game has rounds left to play, a local
    /// running game has not yet reached its bullet, and a won game survived
    /// at least one round.
    pub open spec fn wf(self) -> bool {
        &&& self.bullet_position < CHAMBERS
        &&& self.rounds_survived < CHAMBERS
        &&& (self.status is Active ==> self.rounds_survived < CHAMBERS - 1)
        &&& (self.status is Active && self.material is LocalBullet
            ==> self.rounds_survived <= self.bullet_position)
        &&& (self.status is Won ==> 1 <= self.rounds_survived)
    }

    /// The multiplier at the record's current round count, tolerating the
    /// full cylinder: rejects a zero or beyond-cylinder count with
    /// `InvalidGameStatus` and clamps a count of `CHAMBERS` to the table's
    /// last entry.
    pub fn get_multiplier(&self) -> (r: Result<u16, DegenRouletteError>)
        ensures
            self.rounds_survived == 0 || self.rounds_survived > CHAMBERS ==> r == Err::<
                u16,
                DegenRouletteError,
            >(DegenRouletteError::InvalidGameStatus),
            1 <= self.rounds_survived < CHAMBERS ==> r == Ok::<u16, DegenRouletteError>(
                spec_multiplier(self.rounds_survived),
            ),
            self.rounds_survived == CHAMBERS ==> r == Ok::<u16, DegenRouletteError>(
                spec_max_multiplier(),
            ),
    {
        if self.rounds_survived == 0 || self.rounds_survived > CHAMBERS {
            return Err(DegenRouletteError::InvalidGameStatus);
        }
        if self.rounds_survived == CHAMBERS {
            return multiplier_for(CHAMBERS - 1);
        }
        multiplier_for(self.rounds_survived)
    }

    /// The multiplier `get_multiplier` yields when it yields one.
    pub open spec fn spec_round_multiplier(self) -> u16 {
        if self.rounds_survived == CHAMBERS {
            spec_max_multiplier()
        } else {
            spec_multiplier(self.rounds_survived)
        }
    }

    /// The stake scaled by the record's current multiplier, with the same
    /// wide-intermediate overflow discipline as every payout.
    pub fn calculate_payout(&self) -> (r: Result<u64, DegenRouletteError>)
        ensures
            self.rounds_survived == 0 || self.rounds_survived > CHAMBERS ==> r == Err::<
                u64,
                DegenRouletteError,
            >(DegenRouletteError::InvalidGameStatus),
            1 <= self.rounds_survived <= CHAMBERS && spec_payout_amount(
                self.bet_amount,
                self.spec_round_multiplier(),
            ) > u64::MAX ==> r == Err::<u64, DegenRouletteError>(
                DegenRouletteError::ArithmeticOverflow,
            ),
            1 <= self.rounds_survived <= CHAMBERS && spec_payout_amount(
                self.bet_amount,
                self.spec_round_multiplier(),
            ) <= u64::MAX ==> r == Ok::<u64, DegenRouletteError>(
                spec_payout_amount(self.bet_amount, self.spec_round_multiplier()) as u64,
            ),
    {
        let multiplier = match self.get_multiplier() {
            Ok(m) => m,
            Err(e) => {
                return Err(e);
            },
        };
        scale_by_multiplier(self.bet_amount, multiplier)
    }
}

/// Creates the fresh, never-played record of a player.
pub fn new_idle_game(player: [u8; 32]) -> (game: GameState)
    ensures
        game.player == player,
        game.status is Idle,
        game.bet_amount == 0,
        game.material is LocalBullet,
        game.rounds_survived == 0,
        game.bullet_position == 0,
        game.result_multiplier == 0,
        game.payout == 0,
        game.created_at == 0,
        game.settled_at == 0,
        game.wf(),
{
    GameState {
        player,
        bet_amount: 0,
        material: RandomnessMaterial::LocalBullet,
        rounds_survived: 0,
        bullet_position: 0,
        status: GameStatus::Idle,
        result_multiplier: 0,
        payout: 0,
        created_at: 0,
        settled_at: 0,
    }
}

/// Why a start request is rejected, if it is: the pause gate first, then bet
/// sizing, then solvency, then the record's state, then the supplied
/// commitment's validity.
pub open spec fn spec_start_error(
    config: HouseConfig,
    pool_balance: u64,
    game: GameState,
    bet_amount: u64,
    request: StartRequest,
) -> Option<DegenRouletteError> {
    if config.paused {
        Some(DegenRouletteError::HousePaused)
    } else if spec_bet_sizing_error(config, bet_amount, pool_balance) is Some {
        spec_bet_sizing_error(config, bet_amount, pool_balance)
    } else if spec_solvency_error(bet_amount, pool_balance) is Some {
        spec_solvency_error(bet_amount, pool_balance)
    } else if game.status is Active || game.status is WaitingVrf {
        Some(DegenRouletteError::GameAlreadyActive)
    } else if (request matches StartRequest::CommitReveal { commitment } && all_zeroes(
        commitment@,
    )) {
        Some(DegenRouletteError::InvalidServerSeed)
    } else {
        None
    }
}

/// Starts a game on a player's record.
///
/// Checks the pause gate, the bet sizing and solvency limits against the
/// then-current pool balance, and that the record is not already running;
/// then initializes the record for the requested randomness strategy:
/// commit/reveal stores the (non-zero) commitment, the oracle strategy
/// derives and stores a request seed and waits for fulfilment, and the local
/// strategy fixes the bullet from the creation timestamp. The stake's
/// transfer into the pool is the external ledger's to perform once this
/// returns successfully.
pub fn start_game(
    config: &HouseConfig,
    pool_balance: u64,
    game: &mut GameState,
    bet_amount: u64,
    request: StartRequest,
    now: i64,
) -> (r: Result<(), DegenRouletteError>)
    requires
        old(game).wf(),
    ensures
        final (game).wf(),
        match r {
            Err(e) => {
                &&& Some(e) == spec_start_error(
                    *config,
                    pool_balance,
                    *old(game),
                    bet_amount,
                    request,
                )
                &&& *final (game) == *old(game)
            },
            Ok(()) => {
                &&& spec_start_error(*config, pool_balance, *old(game), bet_amount, request)
                    is None
                &&& final (game).player == old(game).player
                &&& final (game).bet_amount == bet_amount
                &&& final (game).rounds_survived == 0
                &&& final (game).result_multiplier == 0
                &&& final (game).payout == 0
                &&& final (game).created_at == now
                &&& final (game).settled_at == 0
                &&& match request {
                    StartRequest::CommitReveal { commitment } => {
                        &&& final (game).material == RandomnessMaterial::Commitment(commitment)
                        &&& final (game).status is Active
                        &&& final (game).bullet_position == 0
                    },
                    StartRequest::ExternalOracle { slot } => {
                        &&& (final (game).material matches RandomnessMaterial::OracleSeed(seed)
                            && seed@ == spec_vrf_seed(old(game).player@, slot, config.total_games))
                        &&& final (game).status is WaitingVrf
                        &&& final (game).bullet_position == 0
                    },
                    StartRequest::LocalDeterministic => {
                        &&& final (game).material is LocalBullet
                        &&& final (game).status is Active
                        &&& final (game).bullet_position == spec_bullet_from_timestamp(now)
                    },
                }
            },
        },
{
    if let Err(e) = require_not_paused(config) {
        return Err(e);
    }
    if let Err(e) = check_and_size_bet(config, bet_amount, pool_balance) {
        return Err(e);
    }
    if let Err(e) = check_solvency(bet_amount, pool_balance) {
        return Err(e);
    }
    match game.status {
        GameStatus::Active | GameStatus::WaitingVrf => {
            return Err(DegenRouletteError::GameAlreadyActive);
        },
        _ => {},
    }
    match request {
        StartRequest::CommitReveal { commitment } => {
            if is_all_zero32(&commitment) {
                return Err(DegenRouletteError::InvalidServerSeed);
            }
            game.material = RandomnessMaterial::Commitment(commitment);
            game.status = GameStatus::Active;
            game.bullet_position = 0;
        },
        StartRequest::ExternalOracle { slot } => {
            let seed = derive_vrf_seed(&game.player, slot, config.total_games);
            game.material = RandomnessMaterial::OracleSeed(seed);
            game.status = GameStatus::WaitingVrf;
            game.bullet_position = 0;
        },
        StartRequest::LocalDeterministic => {
            game.material = RandomnessMaterial::LocalBullet;
            game.status = GameStatus::Active;
            game.bullet_position = bullet_from_timestamp(now);
        },
    }
    game.bet_amount = bet_amount;
    game.rounds_survived = 0;
    game.result_multiplier = 0;
    game.payout = 0;
    game.created_at = now;
    game.settled_at = 0;
    Ok(())
}

/// Win rule of a single-shot settlement: ties favour the player — a claim of
/// `rounds_claimed` rounds wins exactly when the bullet lies at or beyond
/// that chamber.
pub open spec fn spec_won(bullet_position: u8, rounds_claimed: u8) -> bool {
    bullet_position >= rounds_claimed
}

/// What the configured randomness source resolves the bullet to, given the
/// record's material and the settlement's evidence; material and evidence of
/// different strategies do not fit together.
pub open spec fn spec_resolve_bullet(
    game: GameState,
    evidence: SettleEvidence,
    rounds_claimed: u8,
) -> Result<u8, DegenRouletteError> {
    match (game.material, evidence) {
        (RandomnessMaterial::Commitment(commitment), SettleEvidence::Reveal { seed }) => {
            spec_reveal_outcome(seed@, commitment@)
        },
        (RandomnessMaterial::OracleSeed(_), SettleEvidence::OracleAccount { data }) => {
            if data@.len() == 0 {
                Ok(spec_fallback_outcome(game.player@, game.created_at, rounds_claimed))
            } else {
                spec_oracle_outcome(data@)
            }
        },
        (RandomnessMaterial::LocalBullet, SettleEvidence::Stored) => Ok(game.bullet_position),
        _ => Err(DegenRouletteError::InvalidGameStatus),
    }
}

/// Resolves the bullet for a single-shot settlement through the record's
/// randomness source.
fn resolve_bullet(game: &GameState, evidence: &SettleEvidence, rounds_claimed: u8) -> (r: Result<
    u8,
    DegenRouletteError,
>)
    requires
        game.wf(),
    ensures
        r == spec_resolve_bullet(*game, *evidence, rounds_claimed),
        r matches Ok(bullet) ==> bullet < CHAMBERS,
{
    match (&game.material, evidence) {
        (RandomnessMaterial::Commitment(commitment), SettleEvidence::Reveal { seed }) => {
            reveal_and_derive(seed, commitment)
        },
        (RandomnessMaterial::OracleSeed(_), SettleEvidence::OracleAccount { data }) => {
            if data.len() == 0 {
                Ok(fallback_outcome(&game.player, game.created_at, rounds_claimed))
            } else {
                oracle_outcome(data)
            }
        },
        (RandomnessMaterial::LocalBullet, SettleEvidence::Stored) => Ok(game.bullet_position),
        _ => Err(DegenRouletteError::InvalidGameStatus),
    }
}

/// The payout a single-shot settlement owes: the stake at the claimed
/// rounds' multiplier on a win, nothing on a loss.
pub open spec fn spec_settlement_payout(bet_amount: u64, rounds_claimed: u8, bullet: u8) -> int {
    if spec_won(bullet, rounds_claimed) {
        spec_payout_amount(bet_amount, spec_multiplier(rounds_claimed))
    } else {
        0
    }
}

/// Why a single-shot settlement is rejected, if it is: the record's state
/// first, then the claimed rounds' range, then the randomness source's own
/// verdict, then every overflow check of the payout and the aggregates.
pub open spec fn spec_settle_error(
    config: HouseConfig,
    game: GameState,
    stats: PlayerStats,
    rounds_claimed: u8,
    evidence: SettleEvidence,
) -> Option<DegenRouletteError> {
    if !(game.status is Active || game.status is WaitingVrf) {
        Some(DegenRouletteError::GameNotActive)
    } else if !(1 <= rounds_claimed < CHAMBERS) {
        Some(DegenRouletteError::InvalidRoundsSurvived)
    } else {
        match spec_resolve_bullet(game, evidence, rounds_claimed) {
            Err(e) => Some(e),
            Ok(bullet) => {
                if spec_settlement_payout(game.bet_amount, rounds_claimed, bullet) > u64::MAX {
                    Some(DegenRouletteError::ArithmeticOverflow)
                } else {
                    let payout = spec_settlement_payout(game.bet_amount, rounds_claimed, bullet) as u64;
                    if spec_settlement_overflows(stats, game.bet_amount, payout) {
                        Some(DegenRouletteError::ArithmeticOverflow)
                    } else if config.total_games + 1 > u64::MAX || config.total_volume
                        + game.bet_amount > u64::MAX {
                        Some(DegenRouletteError::ArithmeticOverflow)
                    } else {
                        None
                    }
                }
            },
        }
    }
}

/// Settles a game in one shot.
///
/// Requires a running record and a claim of `1..=CHAMBERS-1` rounds;
/// resolves the bullet through the configured randomness source; the claim
/// wins exactly when the bullet lies at or beyond it. On a win the payout is
/// the stake at the claimed rounds' multiplier, on a loss it is zero; the
/// record, the player's aggregate and the house counters advance together,
/// or not at all. The returned payout is the external ledger's to transfer.
pub fn settle_game(
    config: &mut HouseConfig,
    game: &mut GameState,
    stats: &mut PlayerStats,
    rounds_claimed: u8,
    evidence: &SettleEvidence,
    now: i64,
) -> (r: Result<u64, DegenRouletteError>)
    requires
        old(game).wf(),
    ensures
        final (game).wf(),
        match r {
            Err(e) => {
                &&& Some(e) == spec_settle_error(
                    *old(config),
                    *old(game),
                    *old(stats),
                    rounds_claimed,
                    *evidence,
                )
                &&& *final (game) == *old(game)
                &&& *final (config) == *old(config)
                &&& *final (stats) == *old(stats)
            },
            Ok(payout) => {
                &&& spec_settle_error(
                    *old(config),
                    *old(game),
                    *old(stats),
                    rounds_claimed,
                    *evidence,
                ) is None
                &&& (spec_resolve_bullet(*old(game), *evidence, rounds_claimed) matches Ok(bullet)
                    && {
                    let won = spec_won(bullet, rounds_claimed);
                    &&& payout == spec_settlement_payout(
                        old(game).bet_amount,
                        rounds_claimed,
                        bullet,
                    )
                    &&& final (game).status == (if won {
                        GameStatus::Won
                    } else {
                        GameStatus::Lost
                    })
                    &&& final (game).rounds_survived == rounds_claimed
                    &&& final (game).bullet_position == bullet
                    &&& final (game).result_multiplier == (if won {
                        spec_multiplier(rounds_claimed)
                    } else {
                        0
                    })
                    &&& final (game).payout == payout
                    &&& final (game).settled_at == now
                    &&& final (game).player == old(game).player
                    &&& final (game).bet_amount == old(game).bet_amount
                    &&& final (game).material == old(game).material
                    &&& final (game).created_at == old(game).created_at
                    &&& spec_settlement_applied(
                        *old(stats),
                        *final (stats),
                        old(game).bet_amount,
                        payout,
                        rounds_claimed,
                        won,
                    )
                    &&& final (config).total_games == old(config).total_games + 1
                    &&& final (config).total_volume == old(config).total_volume + old(
                        game,
                    ).bet_amount
                    &&& final (config).authority == old(config).authority
                    &&& final (config).min_bet == old(config).min_bet
                    &&& final (config).max_bet_bps == old(config).max_bet_bps
                    &&& final (config).house_edge_bps == old(config).house_edge_bps
                    &&& final (config).paused == old(config).paused
                })
            },
        },
{
    match game.status {
        GameStatus::Active | GameStatus::WaitingVrf => {},
        _ => {
            return Err(DegenRouletteError::GameNotActive);
        },
    }
    if rounds_claimed < 1 || rounds_claimed >= CHAMBERS {
        return Err(DegenRouletteError::InvalidRoundsSurvived);
    }
    let bullet = match resolve_bullet(game, evidence, rounds_claimed) {
        Ok(b) => b,
        Err(e) => {
            return Err(e);
        },
    };
    let won = bullet >= rounds_claimed;
    let multiplier = match multiplier_for(rounds_claimed) {
        Ok(m) => m,
        Err(e) => {
            return Err(e);
        },
    };
    let payout: u64 = if won {
        match scale_by_multiplier(game.bet_amount, multiplier) {
            Ok(p) => p,
            Err(e) => {
                return Err(e);
            },
        }
    } else {
        0
    };
    let new_stats = match settled_stats(stats, game.bet_amount, payout, rounds_claimed, won) {
        Ok(s) => s,
        Err(e) => {
            return Err(e);
        },
    };
    let new_total_games = match config.total_games.checked_add(1) {
        Some(v) => v,
        None => {
            return Err(DegenRouletteError::ArithmeticOverflow);
        },
    };
    let new_total_volume = match config.total_volume.checked_add(game.bet_amount) {
        Some(v) => v,
        None => {
            return Err(DegenRouletteError::ArithmeticOverflow);
        },
    };
    game.status = if won {
        GameStatus::Won
    } else {
        GameStatus::Lost
    };
    game.rounds_survived = rounds_claimed;
    game.bullet_position = bullet;
    game.result_multiplier = if won {
        multiplier
    } else {
        0
    };
    game.payout = payout;
    game.settled_at = now;
    *stats = new_stats;
    config.total_games = new_total_games;
    config.total_volume = new_total_volume;
    Ok(payout)
}

/// The forced-settlement timeout of a randomness strategy, in seconds: a day
/// for an oracle game (the oracle may never fulfil), an hour otherwise.
pub open spec fn spec_force_timeout(material: RandomnessMaterial) -> int {
    match material {
        RandomnessMaterial::OracleSeed(_) => 86400,
        _ => 3600,
    }
}

/// Why a forced settlement is rejected, if it is: the record's state first,
/// then the timeout, then the aggregates' overflow checks.
pub open spec fn spec_force_settle_error(
    config: HouseConfig,
    game: GameState,
    stats: PlayerStats,
    now: i64,
) -> Option<DegenRouletteError> {
    if !(game.status is Active || game.status is WaitingVrf) {
        Some(DegenRouletteError::GameNotActive)
    } else if now - game.created_at < spec_force_timeout(game.material) {
        Some(DegenRouletteError::GameNotExpired)
    } else if spec_settlement_overflows(stats, game.bet_amount, 0) {
        Some(DegenRouletteError::ArithmeticOverflow)
    } else if config.total_games + 1 > u64::MAX || config.total_volume + game.bet_amount
        > u64::MAX {
        Some(DegenRouletteError::ArithmeticOverflow)
    } else {
        None
    }
}

/// Forces a loss on an abandoned game: the owner's recovery path.
///
/// Only a running record can be forced, and only once the strategy's timeout
/// has elapsed since `created_at` — one second early fails `GameNotExpired`.
/// The outcome is zeroed (no rounds survived, no payout) and the player's
/// aggregate and the house counters advance exactly as on an ordinary loss.
/// That only the owner may call this is the embedding environment's
/// authentication concern.
pub fn force_settle(
    config: &mut HouseConfig,
    game: &mut GameState,
    stats: &mut PlayerStats,
    now: i64,
) -> (r: Result<(), DegenRouletteError>)
    requires
        old(game).wf(),
    ensures
        final (game).wf(),
        match r {
            Err(e) => {
                &&& Some(e) == spec_force_settle_error(*old(config), *old(game), *old(stats), now)
                &&& *final (game) == *old(game)
                &&& *final (config) == *old(config)
                &&& *final (stats) == *old(stats)
            },
            Ok(()) => {
                &&& spec_force_settle_error(*old(config), *old(game), *old(stats), now) is None
                &&& final (game).status is Lost
                &&& final (game).rounds_survived == 0
                &&& final (game).bullet_position == 0
                &&& final (game).result_multiplier == 0
                &&& final (game).payout == 0
                &&& final (game).settled_at == now
                &&& final (game).player == old(game).player
                &&& final (game).bet_amount == old(game).bet_amount
                &&& final (game).material == old(game).material
                &&& final (game).created_at == old(game).created_at
                &&& spec_settlement_applied(
                    *old(stats),
                    *final (stats),
                    old(game).bet_amount,
                    0,
                    0,
                    false,
                )
                &&& final (config).total_games == old(config).total_games + 1
                &&& final (config).total_volume == old(config).total_volume + old(game).bet_amount
                &&& final (config).authority == old(config).authority
                &&& final (config).min_bet == old(config).min_bet
                &&& final (config).max_bet_bps == old(config).max_bet_bps
                &&& final (config).house_edge_bps == old(config).house_edge_bps
                &&& final (config).paused == old(config).paused
            },
        },
{
    match game.status {
        GameStatus::Active | GameStatus::WaitingVrf => {},
        _ => {
            return Err(DegenRouletteError::GameNotActive);
        },
    }
    let timeout: i64 = match &game.material {
        RandomnessMaterial::OracleSeed(_) => 86400,
        _ => 3600,
    };
    if (now as i128) - (game.created_at as i128) < (timeout as i128) {
        return Err(DegenRouletteError::GameNotExpired);
    }
    let new_stats = match settled_stats(stats, game.bet_amount, 0, 0, false) {
        Ok(s) => s,
        Err(e) => {
            return Err(e);
        },
    };
    let new_total_games = match config.total_games.checked_add(1) {
        Some(v) => v,
        None => {
            return Err(DegenRouletteError::ArithmeticOverflow);
        },
    };
    let new_total_volume = match config.total_volume.checked_add(game.bet_amount) {
        Some(v) => v,
        None => {
            return Err(DegenRouletteError::ArithmeticOverflow);
        },
    };
    game.status = GameStatus::Lost;
    game.rounds_survived = 0;
    game.bullet_position = 0;
    game.result_multiplier = 0;
    game.payout = 0;
    game.settled_at = now;
    *stats = new_stats;
    config.total_games = new_total_games;
    config.total_volume = new_total_volume;
    Ok(())
}

/// Why a trigger pull is rejected, if it is: only an Active record of the
/// local deterministic strategy can play incrementally, and a pull that hits
/// the bullet settles a loss, so its aggregate updates must fit.
pub open spec fn spec_pull_error(
    config: HouseConfig,
    game: GameState,
    stats: PlayerStats,
) -> Option<DegenRouletteError> {
    if !(game.status is Active) {
        Some(DegenRouletteError::GameNotActive)
    } else if !(game.material is LocalBullet) {
        Some(DegenRouletteError::InvalidGameStatus)
    } else if game.bullet_position == game.rounds_survived && (spec_settlement_overflows(
        stats,
        game.bet_amount,
        0,
    ) || config.total_games + 1 > u64::MAX || config.total_volume + game.bet_amount > u64::MAX) {
        Some(DegenRouletteError::ArithmeticOverflow)
    } else {
        None
    }
}

/// Plays one round of an incremental game.
///
/// The round count goes up by one. If the new count reaches the pre-fixed
/// bullet (the bullet lies at the chamber just played), the record settles
/// as a loss with no payout and the aggregates advance; if it reaches
/// `CHAMBERS - 1` with the bullet still ahead, the record transitions to Won
/// at the maximum multiplier, to be paid by an explicit cash-out; otherwise
/// the game stays running. Returns the record's new status.
pub fn pull_trigger(
    config: &mut HouseConfig,
    game: &mut GameState,
    stats: &mut PlayerStats,
) -> (r: Result<GameStatus, DegenRouletteError>)
    requires
        old(game).wf(),
    ensures
        final (game).wf(),
        match r {
            Err(e) => {
                &&& Some(e) == spec_pull_error(*old(config), *old(game), *old(stats))
                &&& *final (game) == *old(game)
                &&& *final (config) == *old(config)
                &&& *final (stats) == *old(stats)
            },
            Ok(status) => {
                &&& spec_pull_error(*old(config), *old(game), *old(stats)) is None
                &&& status == final (game).status
                &&& final (game).rounds_survived == old(game).rounds_survived + 1
                &&& final (game).player == old(game).player
                &&& final (game).bet_amount == old(game).bet_amount
                &&& final (game).material == old(game).material
                &&& final (game).bullet_position == old(game).bullet_position
                &&& final (game).payout == old(game).payout
                &&& final (game).created_at == old(game).created_at
                &&& final (game).settled_at == old(game).settled_at
                &&& if old(game).bullet_position == old(game).rounds_survived {
                    &&& final (game).status is Lost
                    &&& final (game).result_multiplier == 0
                    &&& spec_settlement_applied(
                        *old(stats),
                        *final (stats),
                        old(game).bet_amount,
                        0,
                        (old(game).rounds_survived + 1) as u8,
                        false,
                    )
                    &&& final (config).total_games == old(config).total_games + 1
                    &&& final (config).total_volume == old(config).total_volume + old(
                        game,
                    ).bet_amount
                    &&& final (config).authority == old(config).authority
                    &&& final (config).min_bet == old(config).min_bet
                    &&& final (config).max_bet_bps == old(config).max_bet_bps
                    &&& final (config).house_edge_bps == old(config).house_edge_bps
                    &&& final (config).paused == old(config).paused
                } else if old(game).rounds_survived + 1 == CHAMBERS - 1 {
                    &&& final (game).status is Won
                    &&& final (game).result_multiplier == spec_max_multiplier()
                    &&& *final (stats) == *old(stats)
                    &&& *final (config) == *old(config)
                } else {
                    &&& final (game).status is Active
                    &&& final (game).result_multiplier == old(game).result_multiplier
                    &&& *final (stats) == *old(stats)
                    &&& *final (config) == *old(config)
                }
            },
        },
{
    match game.status {
        GameStatus::Active => {},
        _ => {
            return Err(DegenRouletteError::GameNotActive);
        },
    }
    match &game.material {
        RandomnessMaterial::LocalBullet => {},
        _ => {
            return Err(DegenRouletteError::InvalidGameStatus);
        },
    }
    let new_round = game.rounds_survived + 1;
    if game.bullet_position == game.rounds_survived {
        let new_stats = match settled_stats(stats, game.bet_amount, 0, new_round, false) {
            Ok(s) => s,
            Err(e) => {
                return Err(e);
            },
        };
        let new_total_games = match config.total_games.checked_add(1) {
            Some(v) => v,
            None => {
                return Err(DegenRouletteError::ArithmeticOverflow);
            },
        };
        let new_total_volume = match config.total_volume.checked_add(game.bet_amount) {
            Some(v) => v,
            None => {
                return Err(DegenRouletteError::ArithmeticOverflow);
            },
        };
        game.rounds_survived = new_round;
        game.status = GameStatus::Lost;
        game.result_multiplier = 0;
        *stats = new_stats;
        config.total_games = new_total_games;
        config.total_volume = new_total_volume;
        Ok(GameStatus::Lost)
    } else if new_round == CHAMBERS - 1 {
        let multiplier = match multiplier_for(CHAMBERS - 1) {
            Ok(m) => m,
            Err(e) => {
                return Err(e);
            },
        };
        game.rounds_survived = new_round;
        game.status = GameStatus::Won;
        game.result_multiplier = multiplier;
        Ok(GameStatus::Won)
    } else {
        game.rounds_survived = new_round;
        Ok(GameStatus::Active)
    }
}

/// Why a cash-out is rejected, if it is: only a Won record that was not yet
/// paid can cash out, and the payout and aggregate updates must fit.
pub open spec fn spec_cash_out_error(
    config: HouseConfig,
    game: GameState,
    stats: PlayerStats,
) -> Option<DegenRouletteError> {
    if !(game.status is Won) {
        Some(DegenRouletteError::GameNotWon)
    } else if game.payout != 0 {
        Some(DegenRouletteError::GameAlreadySettled)
    } else if spec_payout_amount(game.bet_amount, spec_multiplier(game.rounds_survived))
        > u64::MAX {
        Some(DegenRouletteError::ArithmeticOverflow)
    } else {
        let payout = spec_payout_amount(
            game.bet_amount,
            spec_multiplier(game.rounds_survived),
        ) as u64;
        if spec_settlement_overflows(stats, game.bet_amount, payout) {
            Some(DegenRouletteError::ArithmeticOverflow)
        } else if config.total_games + 1 > u64::MAX || config.total_volume + game.bet_amount
            > u64::MAX {
            Some(DegenRouletteError::ArithmeticOverflow)
        } else {
            None
        }
    }
}

/// Pays out a won incremental game: the only payout path of that mode.
///
/// Only a Won record that was not already paid can cash out — the status is
/// consumed by the call, so cashing out twice fails. The payout is the stake
/// at the multiplier of the rounds actually survived; the record returns to
/// Idle with the payout recorded, and the player's aggregate and the house
/// counters advance as on any settlement. The returned payout is the
/// external ledger's to transfer.
pub fn cash_out(
    config: &mut HouseConfig,
    game: &mut GameState,
    stats: &mut PlayerStats,
    now: i64,
) -> (r: Result<u64, DegenRouletteError>)
    requires
        old(game).wf(),
    ensures
        final (game).wf(),
        match r {
            Err(e) => {
                &&& Some(e) == spec_cash_out_error(*old(config), *old(game), *old(stats))
                &&& *final (game) == *old(game)
                &&& *final (config) == *old(config)
                &&& *final (stats) == *old(stats)
            },
            Ok(payout) => {
                &&& spec_cash_out_error(*old(config), *old(game), *old(stats)) is None
                &&& payout == spec_payout_amount(
                    old(game).bet_amount,
                    spec_multiplier(old(game).rounds_survived),
                )
                &&& final (game).status is Idle
                &&& final (game).payout == payout
                &&& final (game).result_multiplier == spec_multiplier(old(game).rounds_survived)
                &&& final (game).settled_at == now
                &&& final (game).player == old(game).player
                &&& final (game).bet_amount == old(game).bet_amount
                &&& final (game).material == old(game).material
                &&& final (game).rounds_survived == old(game).rounds_survived
                &&& final (game).bullet_position == old(game).bullet_position
                &&& final (game).created_at == old(game).created_at
                &&& spec_settlement_applied(
                    *old(stats),
                    *final (stats),
                    old(game).bet_amount,
                    payout,
                    old(game).rounds_survived,
                    true,
                )
                &&& final (config).total_games == old(config).total_games + 1
                &&& final (config).total_volume == old(config).total_volume + old(game).bet_amount
                &&& final (config).authority == old(config).authority
                &&& final (config).min_bet == old(config).min_bet
                &&& final (config).max_bet_bps == old(config).max_bet_bps
                &&& final (config).house_edge_bps == old(config).house_edge_bps
                &&& final (config).paused == old(config).paused
            },
        },
{
    match game.status {
        GameStatus::Won => {},
        _ => {
            return Err(DegenRouletteError::GameNotWon);
        },
    }
    if game.payout != 0 {
        return Err(DegenRouletteError::GameAlreadySettled);
    }
    let multiplier = match multiplier_for(game.rounds_survived) {
        Ok(m) => m,
        Err(e) => {
            return Err(e);
        },
    };
    let payout = match scale_by_multiplier(game.bet_amount, multiplier) {
        Ok(p) => p,
        Err(e) => {
            return Err(e);
        },
    };
    let new_stats = match settled_stats(stats, game.bet_amount, payout, game.rounds_survived, true)
        {
        Ok(s) => s,
        Err(e) => {
            return Err(e);
        },
    };
    let new_total_games = match config.total_games.checked_add(1) {
        Some(v) => v,
        None => {
            return Err(DegenRouletteError::ArithmeticOverflow);
        },
    };
    let new_total_volume = match config.total_volume.checked_add(game.bet_amount) {
        Some(v) => v,
        None => {
            return Err(DegenRouletteError::ArithmeticOverflow);
        },
    };
    game.status = GameStatus::Idle;
    game.result_multiplier = multiplier;
    game.payout = payout;
    game.settled_at = now;
    *stats = new_stats;
    config.total_games = new_total_games;
    config.total_volume = new_total_volume;
    Ok(payout)
}

/// A settled record rejects a second settlement: once a settlement has
/// advanced a record to Won or Lost, any further settle call fails
/// `GameNotActive`, whatever evidence or claim it carries.
pub proof fn lemma_settle_not_repeatable(
    config: HouseConfig,
    game: GameState,
    stats: PlayerStats,
    rounds_claimed: u8,
    evidence: SettleEvidence,
)
    requires
        game.status is Won || game.status is Lost,
    ensures
        spec_settle_error(config, game, stats, rounds_claimed, evidence) == Some(
            DegenRouletteError::GameNotActive,
        ),
{
}

/// A stake within every configured limit is accepted by start: when the
/// house is live, the stake lies between `min_bet` and the pool cap, the
/// pool covers its worst-case payout and the record is not running, the
/// start rejects nothing (for commit/reveal, provided the commitment is not
/// the zero sentinel).
pub proof fn lemma_start_accepts_valid_bets(
    config: HouseConfig,
    pool_balance: u64,
    game: GameState,
    bet_amount: u64,
    request: StartRequest,
)
    requires
        config.wf(),
        !config.paused,
        config.min_bet <= bet_amount,
        bet_amount <= crate::house::spec_max_bet(pool_balance, config.max_bet_bps),
        crate::house::spec_worst_case_payout(bet_amount) <= pool_balance,
        game.status is Idle || game.status is Won || game.status is Lost,
        request matches StartRequest::CommitReveal { commitment } ==> !all_zeroes(commitment@),
    ensures
        spec_start_error(config, pool_balance, game, bet_amount, request) is None,
{
    crate::house::lemma_sizing_accepts_valid_bets(config, bet_amount, pool_balance);
}

/// A stake one unit above the computed pool cap is rejected as too high,
/// whatever else holds of the record or the randomness request.
pub proof fn lemma_start_rejects_oversized_bet(
    config: HouseConfig,
    pool_balance: u64,
    game: GameState,
    bet_amount: u64,
    request: StartRequest,
)
    requires
        config.wf(),
        !config.paused,
        config.min_bet <= bet_amount,
        bet_amount == crate::house::spec_max_bet(pool_balance, config.max_bet_bps) + 1,
    ensures
        spec_start_error(config, pool_balance, game, bet_amount, request) == Some(
            DegenRouletteError::BetTooHigh,
        ),
{
    crate::house::lemma_sizing_rejects_oversized_bet(config, bet_amount, pool_balance);
}

} // verus!
