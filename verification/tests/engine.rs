//! End-to-end tests of the wagering engine: bet sizing, solvency, the game
//! state machine in both settlement modes, forced settlement and the stats
//! ledger.

use degen_roulette::errors::DegenRouletteError;
use degen_roulette::game::{
    cash_out, force_settle, new_idle_game, pull_trigger, settle_game, start_game, GameState,
    GameStatus, RandomnessMaterial, SettleEvidence, StartRequest,
};
use degen_roulette::house::{
    check_and_size_bet, check_solvency, initialize_house, pause, require_not_paused, unpause,
    update_config, HouseConfig,
};
use degen_roulette::payout::{multiplier_for, payout_for};
use degen_roulette::stats::{initialize_player_stats, record_settlement, PlayerStats};

const PLAYER: [u8; 32] = [7u8; 32];
const OWNER: [u8; 32] = [1u8; 32];

/// A live house with a small minimum bet, so scenario stakes pass sizing.
fn test_house(min_bet: u64) -> HouseConfig {
    let mut config = initialize_house(OWNER);
    update_config(&mut config, Some(min_bet), None, None).unwrap();
    config
}

/// Starts a local deterministic game; `created_at` fixes the bullet as
/// `created_at mod 6`.
fn start_local(
    config: &HouseConfig,
    pool: u64,
    bet: u64,
    created_at: i64,
) -> (GameState, PlayerStats) {
    let mut game = new_idle_game(PLAYER);
    start_game(
        config,
        pool,
        &mut game,
        bet,
        StartRequest::LocalDeterministic,
        created_at,
    )
    .unwrap();
    let stats = initialize_player_stats(PLAYER);
    (game, stats)
}

#[test]
fn house_defaults() {
    let config = initialize_house(OWNER);
    assert_eq!(config.authority, OWNER);
    assert_eq!(config.min_bet, 10_000_000);
    assert_eq!(config.max_bet_bps, 1000);
    assert_eq!(config.house_edge_bps, 300);
    assert!(!config.paused);
    assert_eq!(config.total_games, 0);
    assert_eq!(config.total_volume, 0);
}

#[test]
fn update_config_applies_and_bounds_checks() {
    let mut config = initialize_house(OWNER);
    assert_eq!(update_config(&mut config, Some(5), Some(2000), Some(250)), Ok(()));
    assert_eq!(config.min_bet, 5);
    assert_eq!(config.max_bet_bps, 2000);
    assert_eq!(config.house_edge_bps, 250);

    // Out-of-bounds percentages are rejected and nothing changes, even when
    // another field of the same request was acceptable.
    assert_eq!(
        update_config(&mut config, Some(9), Some(10001), None),
        Err(DegenRouletteError::InvalidConfig)
    );
    assert_eq!(config.min_bet, 5);
    assert_eq!(config.max_bet_bps, 2000);
    assert_eq!(
        update_config(&mut config, None, None, Some(10001)),
        Err(DegenRouletteError::InvalidConfig)
    );
    assert_eq!(config.house_edge_bps, 250);
}

#[test]
fn pause_gates_start() {
    let mut config = test_house(1);
    pause(&mut config);
    assert!(config.paused);
    assert_eq!(require_not_paused(&config), Err(DegenRouletteError::HousePaused));
    let mut game = new_idle_game(PLAYER);
    assert_eq!(
        start_game(&config, 1_000_000, &mut game, 1_000, StartRequest::LocalDeterministic, 0),
        Err(DegenRouletteError::HousePaused)
    );
    assert_eq!(game.status, GameStatus::Idle);
    unpause(&mut config);
    assert!(!config.paused);
    assert_eq!(require_not_paused(&config), Ok(()));
}

#[test]
fn bet_boundaries() {
    // A stake exactly at the minimum passes; one unit below fails BetTooLow.
    let config = test_house(1_000);
    let pool: u64 = 1_000_000;
    assert_eq!(check_and_size_bet(&config, 1_000, pool), Ok(()));
    assert_eq!(
        check_and_size_bet(&config, 999, pool),
        Err(DegenRouletteError::BetTooLow)
    );
    // The cap is pool * 1000 / 10000 = 100_000: at the cap passes, one unit
    // above fails BetTooHigh.
    assert_eq!(check_and_size_bet(&config, 100_000, pool), Ok(()));
    assert_eq!(
        check_and_size_bet(&config, 100_001, pool),
        Err(DegenRouletteError::BetTooHigh)
    );
}

#[test]
fn bet_sizing_overflow() {
    // A cap percentage above the denominator can push the computed cap past
    // u64::MAX; the sizing check reports the overflow rather than truncate.
    let config = HouseConfig {
        authority: OWNER,
        min_bet: 1,
        max_bet_bps: 20000,
        house_edge_bps: 300,
        paused: false,
        total_games: 0,
        total_volume: 0,
    };
    assert_eq!(
        check_and_size_bet(&config, 10, u64::MAX),
        Err(DegenRouletteError::ArithmeticOverflow)
    );
}

#[test]
fn solvency_boundaries() {
    // Worst case of a 100_000 stake is 100_000 * 582 / 100 = 582_000.
    assert_eq!(check_solvency(100_000, 582_000), Ok(()));
    assert_eq!(
        check_solvency(100_000, 581_999),
        Err(DegenRouletteError::InsufficientHouseBalance)
    );
    // A stake whose worst case exceeds u64::MAX is an arithmetic error.
    assert_eq!(
        check_solvency(u64::MAX, u64::MAX),
        Err(DegenRouletteError::ArithmeticOverflow)
    );
}

#[test]
fn start_rejects_running_record() {
    let config = test_house(1);
    let (mut game, _stats) = start_local(&config, 1_000_000, 1_000, 0);
    assert_eq!(game.status, GameStatus::Active);
    assert_eq!(
        start_game(&config, 1_000_000, &mut game, 1_000, StartRequest::LocalDeterministic, 0),
        Err(DegenRouletteError::GameAlreadyActive)
    );
}

#[test]
fn rounds_claimed_boundaries() {
    // Claims of 0 and CHAMBERS rounds both fail InvalidRoundsSurvived.
    let mut config = test_house(1);
    let (mut game, mut stats) = start_local(&config, 1_000_000, 1_000, 0);
    assert_eq!(
        settle_game(&mut config, &mut game, &mut stats, 0, &SettleEvidence::Stored, 1),
        Err(DegenRouletteError::InvalidRoundsSurvived)
    );
    assert_eq!(
        settle_game(&mut config, &mut game, &mut stats, 6, &SettleEvidence::Stored, 1),
        Err(DegenRouletteError::InvalidRoundsSurvived)
    );
    assert_eq!(game.status, GameStatus::Active);
}

#[test]
fn win_rule_ties_favor_player() {
    // bullet = 3, claim 3 -> win (tie favours the player).
    let mut config = test_house(1);
    let (mut game, mut stats) = start_local(&config, 1_000_000, 1_000, 3);
    assert_eq!(game.bullet_position, 3);
    let payout = settle_game(&mut config, &mut game, &mut stats, 3, &SettleEvidence::Stored, 4)
        .unwrap();
    assert_eq!(game.status, GameStatus::Won);
    assert_eq!(payout, 1_000 * 194 / 100);
    assert_eq!(game.result_multiplier, 194);

    // bullet = 2, claim 3 -> loss.
    let mut config = test_house(1);
    let (mut game, mut stats) = start_local(&config, 1_000_000, 1_000, 2);
    assert_eq!(game.bullet_position, 2);
    let payout = settle_game(&mut config, &mut game, &mut stats, 3, &SettleEvidence::Stored, 4)
        .unwrap();
    assert_eq!(game.status, GameStatus::Lost);
    assert_eq!(payout, 0);
    assert_eq!(game.result_multiplier, 0);
}

#[test]
fn full_pool_scenario() {
    // Pool 1_000_000, cap 10%, stake 100_000: sizing passes; worst case at
    // multiplier 582 is 582_000 <= 1_000_000, so solvency passes; a claim of
    // 5 rounds with the bullet at 5 wins 100_000 * 582 / 100 = 582_000.
    let mut config = test_house(1);
    let pool: u64 = 1_000_000;
    // created_at = 11: bullet is 11 mod 6 = 5.
    let (mut game, mut stats) = start_local(&config, pool, 100_000, 11);
    assert_eq!(game.bullet_position, 5);
    let payout =
        settle_game(&mut config, &mut game, &mut stats, 5, &SettleEvidence::Stored, 12).unwrap();
    assert_eq!(payout, 582_000);
    assert_eq!(game.status, GameStatus::Won);
    assert_eq!(game.result_multiplier, 582);
    assert_eq!(game.payout, 582_000);
    assert_eq!(game.settled_at, 12);
    assert_eq!(stats.total_won, 582_000);
    assert_eq!(stats.total_wagered, 100_000);
    assert_eq!(stats.total_profit, 482_000);
    assert_eq!(stats.best_streak, 5);
    assert_eq!(config.total_games, 1);
    assert_eq!(config.total_volume, 100_000);
}

#[test]
fn settle_twice_fails() {
    let mut config = test_house(1);
    let (mut game, mut stats) = start_local(&config, 1_000_000, 1_000, 5);
    assert!(settle_game(&mut config, &mut game, &mut stats, 2, &SettleEvidence::Stored, 6).is_ok());
    let before_game_status = game.status;
    assert_eq!(
        settle_game(&mut config, &mut game, &mut stats, 2, &SettleEvidence::Stored, 7),
        Err(DegenRouletteError::GameNotActive)
    );
    assert_eq!(game.status, before_game_status);
    assert_eq!(config.total_games, 1);
}

#[test]
fn restart_after_settlement() {
    // A Won or Lost record can start a fresh game; the new start resets the
    // result fields.
    let mut config = test_house(1);
    let (mut game, mut stats) = start_local(&config, 1_000_000, 1_000, 5);
    settle_game(&mut config, &mut game, &mut stats, 2, &SettleEvidence::Stored, 6).unwrap();
    assert_eq!(game.status, GameStatus::Won);
    assert_eq!(
        start_game(&config, 1_000_000, &mut game, 2_000, StartRequest::LocalDeterministic, 20),
        Ok(())
    );
    assert_eq!(game.status, GameStatus::Active);
    assert_eq!(game.bet_amount, 2_000);
    assert_eq!(game.rounds_survived, 0);
    assert_eq!(game.result_multiplier, 0);
    assert_eq!(game.payout, 0);
    assert_eq!(game.created_at, 20);
    assert_eq!(game.settled_at, 0);
    assert_eq!(game.bullet_position, 2); // 20 mod 6
}

#[test]
fn forced_settlement_timing() {
    // Local variant: one-hour timeout. One second before it fails
    // GameNotExpired; at the boundary it succeeds and zeroes the outcome.
    let mut config = test_house(1);
    let (mut game, mut stats) = start_local(&config, 1_000_000, 1_000, 1_000);
    assert_eq!(
        force_settle(&mut config, &mut game, &mut stats, 1_000 + 3_599),
        Err(DegenRouletteError::GameNotExpired)
    );
    assert_eq!(game.status, GameStatus::Active);
    assert_eq!(force_settle(&mut config, &mut game, &mut stats, 1_000 + 3_600), Ok(()));
    assert_eq!(game.status, GameStatus::Lost);
    assert_eq!(game.rounds_survived, 0);
    assert_eq!(game.bullet_position, 0);
    assert_eq!(game.result_multiplier, 0);
    assert_eq!(game.payout, 0);
    assert_eq!(game.settled_at, 1_000 + 3_600);
    assert_eq!(stats.total_games, 1);
    assert_eq!(stats.total_wagered, 1_000);
    assert_eq!(stats.total_profit, -1_000);
    assert_eq!(config.total_games, 1);

    // A settled record cannot be forced again.
    assert_eq!(
        force_settle(&mut config, &mut game, &mut stats, 1_000_000),
        Err(DegenRouletteError::GameNotActive)
    );
}

#[test]
fn forced_settlement_oracle_timeout() {
    // Oracle variant: 24-hour timeout instead of one hour.
    let mut config = test_house(1);
    let mut game = new_idle_game(PLAYER);
    start_game(
        &config,
        1_000_000,
        &mut game,
        1_000,
        StartRequest::ExternalOracle { slot: 42 },
        500,
    )
    .unwrap();
    assert_eq!(game.status, GameStatus::WaitingVrf);
    let mut stats = initialize_player_stats(PLAYER);
    assert_eq!(
        force_settle(&mut config, &mut game, &mut stats, 500 + 86_399),
        Err(DegenRouletteError::GameNotExpired)
    );
    assert_eq!(force_settle(&mut config, &mut game, &mut stats, 500 + 86_400), Ok(()));
    assert_eq!(game.status, GameStatus::Lost);
}

#[test]
fn stats_profit_exact_over_interleavings() {
    // After any interleaving of wins and losses, total_profit ==
    // total_won - total_wagered, exactly.
    let mut config = test_house(1);
    let mut stats = initialize_player_stats(PLAYER);
    let pool: u64 = 10_000_000;
    // created_at values give bullets 5, 0, 3, 1, 4: claims of 2 rounds win,
    // lose, win, lose, win.
    let timestamps: [i64; 5] = [5, 6, 9, 7, 10];
    let mut games: u64 = 0;
    for created_at in timestamps {
        let mut game = new_idle_game(PLAYER);
        start_game(
            &config,
            pool,
            &mut game,
            3_000,
            StartRequest::LocalDeterministic,
            created_at,
        )
        .unwrap();
        settle_game(&mut config, &mut game, &mut stats, 2, &SettleEvidence::Stored, created_at + 1)
            .unwrap();
        games += 1;
        assert_eq!(stats.total_games, games);
        assert_eq!(
            stats.total_profit,
            stats.total_won as i64 - stats.total_wagered as i64
        );
    }
    // Three wins at multiplier 145 of a 3_000 stake, two losses.
    assert_eq!(stats.total_wagered, 15_000);
    assert_eq!(stats.total_won, 3 * (3_000 * 145 / 100));
    assert_eq!(stats.best_streak, 2);
    assert_eq!(config.total_games, 5);
    assert_eq!(config.total_volume, 15_000);
}

#[test]
fn record_settlement_checks_overflow() {
    let mut stats = initialize_player_stats(PLAYER);
    stats.total_wagered = u64::MAX;
    assert_eq!(
        record_settlement(&mut stats, 1, 0, 1, false),
        Err(DegenRouletteError::ArithmeticOverflow)
    );
    assert_eq!(stats.total_games, 0);
    // A payout beyond i64::MAX cannot enter the signed profit aggregate.
    let mut stats = initialize_player_stats(PLAYER);
    assert_eq!(
        record_settlement(&mut stats, 1, u64::MAX, 1, true),
        Err(DegenRouletteError::ArithmeticOverflow)
    );
    // An ordinary loss is recorded with a negative profit.
    let mut stats = initialize_player_stats(PLAYER);
    assert_eq!(record_settlement(&mut stats, 500, 0, 3, false), Ok(()));
    assert_eq!(stats.total_games, 1);
    assert_eq!(stats.total_profit, -500);
    assert_eq!(stats.best_streak, 0);
}

#[test]
fn incremental_pulls_until_loss() {
    // created_at = 3: the bullet sits at chamber 3, so pulls survive rounds
    // 1..3 and the fourth pull loses.
    let mut config = test_house(1);
    let (mut game, mut stats) = start_local(&config, 1_000_000, 1_000, 3);
    assert_eq!(pull_trigger(&mut config, &mut game, &mut stats), Ok(GameStatus::Active));
    assert_eq!(game.rounds_survived, 1);
    assert_eq!(pull_trigger(&mut config, &mut game, &mut stats), Ok(GameStatus::Active));
    assert_eq!(pull_trigger(&mut config, &mut game, &mut stats), Ok(GameStatus::Active));
    assert_eq!(game.rounds_survived, 3);
    assert_eq!(pull_trigger(&mut config, &mut game, &mut stats), Ok(GameStatus::Lost));
    assert_eq!(game.rounds_survived, 4);
    assert_eq!(game.status, GameStatus::Lost);
    assert_eq!(game.payout, 0);
    assert_eq!(stats.total_games, 1);
    assert_eq!(stats.total_profit, -1_000);
    assert_eq!(config.total_games, 1);
    // A lost record cannot pull again.
    assert_eq!(
        pull_trigger(&mut config, &mut game, &mut stats),
        Err(DegenRouletteError::GameNotActive)
    );
}

#[test]
fn incremental_win_and_cash_out() {
    // created_at = 5: the bullet sits at the last chamber, so five pulls
    // survive and the record transitions to Won at the maximum multiplier.
    let mut config = test_house(1);
    let (mut game, mut stats) = start_local(&config, 1_000_000, 1_000, 5);
    for _ in 0..4 {
        assert_eq!(pull_trigger(&mut config, &mut game, &mut stats), Ok(GameStatus::Active));
    }
    assert_eq!(pull_trigger(&mut config, &mut game, &mut stats), Ok(GameStatus::Won));
    assert_eq!(game.status, GameStatus::Won);
    assert_eq!(game.rounds_survived, 5);
    assert_eq!(game.result_multiplier, 582);
    // No payout yet; stats untouched until the explicit cash-out.
    assert_eq!(game.payout, 0);
    assert_eq!(stats.total_games, 0);

    let payout = cash_out(&mut config, &mut game, &mut stats, 99).unwrap();
    assert_eq!(payout, 1_000 * 582 / 100);
    assert_eq!(game.status, GameStatus::Idle);
    assert_eq!(game.payout, payout);
    assert_eq!(game.settled_at, 99);
    assert_eq!(stats.total_games, 1);
    assert_eq!(stats.total_won, payout);
    assert_eq!(stats.best_streak, 5);
    assert_eq!(config.total_games, 1);

    // Cash-out consumed the status: a second cash-out fails.
    assert_eq!(
        cash_out(&mut config, &mut game, &mut stats, 100),
        Err(DegenRouletteError::GameNotWon)
    );
}

#[test]
fn cash_out_requires_won() {
    let mut config = test_house(1);
    let (mut game, mut stats) = start_local(&config, 1_000_000, 1_000, 5);
    assert_eq!(
        cash_out(&mut config, &mut game, &mut stats, 1),
        Err(DegenRouletteError::GameNotWon)
    );
}

#[test]
fn cash_out_after_single_shot_settlement_fails() {
    // A game settled (and paid) in one shot stays Won; cashing it out again
    // is rejected as already settled.
    let mut config = test_house(1);
    let (mut game, mut stats) = start_local(&config, 1_000_000, 1_000, 5);
    settle_game(&mut config, &mut game, &mut stats, 2, &SettleEvidence::Stored, 6).unwrap();
    assert_eq!(game.status, GameStatus::Won);
    assert!(game.payout > 0);
    assert_eq!(
        cash_out(&mut config, &mut game, &mut stats, 7),
        Err(DegenRouletteError::GameAlreadySettled)
    );
}

#[test]
fn pull_requires_local_material() {
    // The incremental mode only fits the local deterministic strategy.
    let mut config = test_house(1);
    let mut game = new_idle_game(PLAYER);
    start_game(
        &config,
        1_000_000,
        &mut game,
        1_000,
        StartRequest::CommitReveal { commitment: [9u8; 32] },
        0,
    )
    .unwrap();
    let mut stats = initialize_player_stats(PLAYER);
    assert_eq!(
        pull_trigger(&mut config, &mut game, &mut stats),
        Err(DegenRouletteError::InvalidGameStatus)
    );
}

#[test]
fn get_multiplier_and_calculate_payout() {
    let mut game = new_idle_game(PLAYER);
    game.bet_amount = 10_000;
    game.rounds_survived = 0;
    assert_eq!(game.get_multiplier(), Err(DegenRouletteError::InvalidGameStatus));
    assert_eq!(game.calculate_payout(), Err(DegenRouletteError::InvalidGameStatus));
    game.rounds_survived = 3;
    assert_eq!(game.get_multiplier(), Ok(194));
    assert_eq!(game.calculate_payout(), Ok(19_400));
    // A full cylinder clamps to the table's last entry.
    game.rounds_survived = 6;
    assert_eq!(game.get_multiplier(), Ok(582));
    assert_eq!(game.calculate_payout(), Ok(58_200));
    game.rounds_survived = 7;
    assert_eq!(game.get_multiplier(), Err(DegenRouletteError::InvalidGameStatus));
    // A payout beyond u64 is an arithmetic error, never a truncation.
    game.rounds_survived = 5;
    game.bet_amount = u64::MAX;
    assert_eq!(game.calculate_payout(), Err(DegenRouletteError::ArithmeticOverflow));
}

#[test]
fn material_evidence_mismatch() {
    let mut config = test_house(1);
    let (mut game, mut stats) = start_local(&config, 1_000_000, 1_000, 0);
    assert!(matches!(game.material, RandomnessMaterial::LocalBullet));
    assert_eq!(
        settle_game(
            &mut config,
            &mut game,
            &mut stats,
            2,
            &SettleEvidence::Reveal { seed: [1u8; 32] },
            1
        ),
        Err(DegenRouletteError::InvalidGameStatus)
    );
    assert_eq!(game.status, GameStatus::Active);
}

#[test]
fn negative_timestamp_still_fixes_a_chamber() {
    // The local bullet is the mathematical (non-negative) remainder even for
    // timestamps before the epoch: -1 mod 6 = 5.
    let config = test_house(1);
    let mut game = new_idle_game(PLAYER);
    start_game(&config, 1_000_000, &mut game, 1_000, StartRequest::LocalDeterministic, -1)
        .unwrap();
    assert_eq!(game.bullet_position, 5);
}

#[test]
fn multiplier_table_values() {
    assert_eq!(multiplier_for(1), Ok(116));
    assert_eq!(multiplier_for(2), Ok(145));
    assert_eq!(multiplier_for(3), Ok(194));
    assert_eq!(multiplier_for(4), Ok(291));
    assert_eq!(multiplier_for(5), Ok(582));
    assert_eq!(multiplier_for(0), Err(DegenRouletteError::InvalidRoundsSurvived));
    assert_eq!(multiplier_for(6), Err(DegenRouletteError::InvalidRoundsSurvived));
    // Strictly increasing across the whole table.
    for rounds in 1..5u8 {
        assert!(multiplier_for(rounds).unwrap() < multiplier_for(rounds + 1).unwrap());
    }
}

#[test]
fn payout_for_exact_values() {
    assert_eq!(payout_for(100_000, 5), Ok(582_000));
    // Division truncates: 999 * 116 / 100 = 1158.84 pays 1158.
    assert_eq!(payout_for(999, 1), Ok(1_158));
    assert_eq!(payout_for(0, 3), Ok(0));
    assert_eq!(payout_for(1_000, 0), Err(DegenRouletteError::InvalidRoundsSurvived));
    assert_eq!(payout_for(u64::MAX, 5), Err(DegenRouletteError::ArithmeticOverflow));
}
