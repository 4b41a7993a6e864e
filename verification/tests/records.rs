use anchor_lang::prelude::Pubkey;
use rug_roulette::state::Game;
use rug_roulette::state::GameStatus;
use rug_roulette::state::RugRouletteError;

fn sound_game() -> Game {
    Game {
        authority: Pubkey::new_from_array([2; 32]),
        entry_fee: 100,
        total_pot: 500,
        player_count: 5,
        status: GameStatus::Rugged,
        survivor_index: Some(2),
        token_counts: [0, 0, 3, 0, 0, 2],
        bump: 255,
    }
}

#[test]
fn sound_games_are_well_formed() {
    assert!(sound_game().is_well_formed());
    let fresh = Game {
        authority: Pubkey::new_from_array([2; 32]),
        entry_fee: 0,
        total_pot: 0,
        player_count: 0,
        status: GameStatus::Open,
        survivor_index: None,
        token_counts: [0; 6],
        bump: 0,
    };
    assert!(fresh.is_well_formed());
    let closed = Game { status: GameStatus::Closed, survivor_index: None, ..sound_game() };
    assert!(closed.is_well_formed());
    let full = Game {
        entry_fee: u64::MAX / u64::from(u32::MAX),
        total_pot: (u64::MAX / u64::from(u32::MAX)) * u64::from(u32::MAX),
        player_count: u32::MAX,
        token_counts: [u32::MAX, 0, 0, 0, 0, 0],
        ..sound_game()
    };
    assert!(full.is_well_formed());
}

#[test]
fn pot_must_be_fee_times_players() {
    assert!(!Game { total_pot: 499, ..sound_game() }.is_well_formed());
    assert!(!Game { entry_fee: 101, ..sound_game() }.is_well_formed());
    // The product is taken without wrapping: 2^63 * 2 is not 0.
    let wrapped = Game {
        entry_fee: 1 << 63,
        total_pot: 0,
        player_count: 2,
        token_counts: [2, 0, 0, 0, 0, 0],
        status: GameStatus::Open,
        survivor_index: None,
        ..sound_game()
    };
    assert!(!wrapped.is_well_formed());
}

#[test]
fn counts_must_add_up_to_players() {
    assert!(!Game { token_counts: [0, 0, 3, 0, 0, 1], ..sound_game() }.is_well_formed());
    assert!(!Game { token_counts: [1, 0, 3, 0, 0, 2], ..sound_game() }.is_well_formed());
    assert!(Game { token_counts: [1, 1, 1, 1, 1, 0], ..sound_game() }.is_well_formed());
    // The sum is taken without wrapping: 2^31 + 2^31 is not 0.
    let wrapped = Game {
        entry_fee: 0,
        total_pot: 0,
        player_count: 0,
        token_counts: [1 << 31, 1 << 31, 0, 0, 0, 0],
        status: GameStatus::Open,
        survivor_index: None,
        ..sound_game()
    };
    assert!(!wrapped.is_well_formed());
}

#[test]
fn survivor_goes_with_rugged() {
    assert!(!Game { survivor_index: None, ..sound_game() }.is_well_formed());
    assert!(!Game { status: GameStatus::Open, ..sound_game() }.is_well_formed());
    assert!(!Game { status: GameStatus::Closed, ..sound_game() }.is_well_formed());
    assert!(!Game { survivor_index: Some(6), ..sound_game() }.is_well_formed());
    assert!(Game { survivor_index: Some(5), ..sound_game() }.is_well_formed());
    assert!(Game { survivor_index: Some(0), ..sound_game() }.is_well_formed());
}

#[test]
fn rugged_game_has_players() {
    let empty = Game {
        total_pot: 0,
        player_count: 0,
        token_counts: [0; 6],
        ..sound_game()
    };
    assert!(!empty.is_well_formed());
    assert!(Game { status: GameStatus::Open, survivor_index: None, ..empty }.is_well_formed());
}

#[test]
fn every_error_has_its_message() {
    assert_eq!(RugRouletteError::InvalidTokenIndex.message(), "Invalid token index. Must be 0-5.");
    assert_eq!(RugRouletteError::GameNotOpen.message(), "Game is not open for entries.");
    assert_eq!(RugRouletteError::GameNotRugged.message(), "Game has not been rugged yet.");
    assert_eq!(RugRouletteError::NoPlayers.message(), "No players in the game.");
    assert_eq!(RugRouletteError::NoSurvivor.message(), "No survivor has been determined.");
    assert_eq!(RugRouletteError::NotASurvivor.message(), "You are not a survivor. RUGGED!");
    assert_eq!(RugRouletteError::AlreadyClaimed.message(), "Winnings already claimed.");
    assert_eq!(RugRouletteError::NoSurvivors.message(), "No survivors for this token.");
    assert_eq!(RugRouletteError::Unauthorized.message(), "Signer is not the authority of the game.");
    assert_eq!(RugRouletteError::WrongEntry.message(), "Entry belongs to another game or player.");
    assert_eq!(RugRouletteError::AccountInUse.message(), "Account already in use.");
    assert_eq!(RugRouletteError::InsufficientFunds.message(), "Insufficient funds for the entry fee.");
    assert_eq!(RugRouletteError::InsufficientVaultBalance.message(), "Vault balance is below the winnings.");
    assert_eq!(RugRouletteError::Overflow.message(), "Amount does not fit.");
    assert_eq!(RugRouletteError::ClockUnavailable.message(), "Cluster clock is not available.");
}
