use anchor_lang::prelude::Pubkey;
use rug_roulette::entry::enter_game;
use rug_roulette::entry::EnterGame;
use rug_roulette::open::initialize_game;
use rug_roulette::open::InitializeGame;
use rug_roulette::rug::draw_survivor;
use rug_roulette::rug::trigger_rug;
use rug_roulette::rug::trigger_rug_at;
use rug_roulette::rug::TriggerRug;
use rug_roulette::state::Game;
use rug_roulette::state::GameStatus;
use rug_roulette::state::RugRouletteError;
use rug_roulette::state::Wallet;
use rug_roulette::NUM_RUGS;
use rug_roulette::NUM_TOKENS;

fn game_with_one_player() -> Game {
    let mut open = InitializeGame {
        game_key: Pubkey::new_from_array([1; 32]),
        game: None,
        game_bump: 255,
        authority: Pubkey::new_from_array([2; 32]),
    };
    initialize_game(&mut open, 10).unwrap();
    let mut entry = EnterGame {
        game_key: open.game_key,
        game: open.game.unwrap(),
        game_vault: Wallet { key: Pubkey::new_from_array([3; 32]), lamports: 0 },
        player_entry: None,
        entry_bump: 254,
        player: Wallet { key: Pubkey::new_from_array([4; 32]), lamports: 10 },
    };
    enter_game(&mut entry, 0).unwrap();
    entry.game
}

#[test]
fn six_tokens_five_rugs() {
    assert_eq!(NUM_TOKENS, 6);
    assert_eq!(NUM_RUGS, 5);
}

#[test]
fn draw_is_the_sum_modulo_six() {
    assert_eq!(draw_survivor(0, 0), 0);
    assert_eq!(draw_survivor(5, 0), 5);
    assert_eq!(draw_survivor(6, 0), 0);
    assert_eq!(draw_survivor(7, 1), 2);
    assert_eq!(draw_survivor(1000, 3), 1);
    assert_eq!(draw_survivor(250_000_000, 1_700_000_000), 0);
    assert_eq!(draw_survivor(250_000_000, 1_700_000_004), 4);
}

#[test]
fn draw_takes_a_timestamp_before_the_epoch() {
    assert_eq!(draw_survivor(10, -3), 1);
    assert_eq!(draw_survivor(10, -10), 0);
}

#[test]
fn draw_wraps_around_at_two_to_the_sixty_four() {
    // 2^64 - 1 leaves 3 when divided by 6.
    assert_eq!(draw_survivor(u64::MAX, 0), 3);
    assert_eq!(draw_survivor(u64::MAX, 1), 0);
    assert_eq!(draw_survivor(u64::MAX, 6), 5);
    assert_eq!(draw_survivor(0, -1), 3);
    assert_eq!(draw_survivor(2, -3), 3);
    // 2^63 leaves 2, 2^63 - 1 leaves 1.
    assert_eq!(draw_survivor(0, i64::MIN), 2);
    assert_eq!(draw_survivor(0, i64::MAX), 1);
    assert_eq!(draw_survivor(u64::MAX, i64::MAX), 0);
    assert_eq!(draw_survivor(u64::MAX, i64::MIN), 1);
}

#[test]
fn draw_agrees_with_wrapping_addition() {
    let slots: [u64; 5] = [0, 1, 123_456_789, u64::MAX - 1, u64::MAX];
    let stamps: [i64; 6] = [i64::MIN, -1_000_000, -1, 0, 1_700_000_000, i64::MAX];
    for slot in slots {
        for stamp in stamps {
            let seed = slot.wrapping_add(stamp as u64);
            assert_eq!(u64::from(draw_survivor(slot, stamp)), seed % 6);
        }
    }
}

#[test]
fn rug_survivor_is_the_draw() {
    for slot in 0..12u64 {
        let mut ctx = TriggerRug {
            game_key: Pubkey::new_from_array([1; 32]),
            game: game_with_one_player(),
            authority: Pubkey::new_from_array([2; 32]),
        };
        let event = trigger_rug_at(&mut ctx, slot, -1).unwrap();
        assert_eq!(event.survivor_index, draw_survivor(slot, -1));
        assert_eq!(ctx.game.survivor_index, Some(event.survivor_index));
        assert_eq!(event.survivor_count, ctx.game.token_counts[usize::from(event.survivor_index)]);
    }
}

#[test]
fn rug_without_a_cluster_clock_is_refused() {
    let mut ctx = TriggerRug {
        game_key: Pubkey::new_from_array([1; 32]),
        game: game_with_one_player(),
        authority: Pubkey::new_from_array([2; 32]),
    };
    let before = ctx;
    assert_eq!(trigger_rug(&mut ctx), Err(RugRouletteError::ClockUnavailable));
    assert_eq!(ctx, before);
    assert_eq!(ctx.game.status, GameStatus::Open);
    assert_eq!(ctx.game.survivor_index, None);
}

#[test]
fn rug_checks_come_before_the_clock() {
    let mut ctx = TriggerRug {
        game_key: Pubkey::new_from_array([1; 32]),
        game: game_with_one_player(),
        authority: Pubkey::new_from_array([5; 32]),
    };
    assert_eq!(trigger_rug(&mut ctx), Err(RugRouletteError::Unauthorized));

    let mut open = InitializeGame {
        game_key: Pubkey::new_from_array([1; 32]),
        game: None,
        game_bump: 255,
        authority: Pubkey::new_from_array([2; 32]),
    };
    initialize_game(&mut open, 10).unwrap();
    let mut ctx = TriggerRug { game_key: open.game_key, game: open.game.unwrap(), authority: open.authority };
    assert_eq!(trigger_rug(&mut ctx), Err(RugRouletteError::NoPlayers));

    let mut ctx = TriggerRug {
        game_key: Pubkey::new_from_array([1; 32]),
        game: game_with_one_player(),
        authority: Pubkey::new_from_array([2; 32]),
    };
    trigger_rug_at(&mut ctx, 0, 0).unwrap();
    assert_eq!(trigger_rug(&mut ctx), Err(RugRouletteError::GameNotOpen));
}
