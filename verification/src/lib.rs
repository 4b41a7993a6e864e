//! Rug roulette: a single-round pari-mutuel elimination game.
//!
//! Every player stakes the same entry fee on one of [`NUM_TOKENS`] tokens. When
//! the authority pulls the rug, one token survives; the players who picked it
//! split the pot in equal floor shares and everybody else loses the stake.

use vstd::prelude::*;

pub mod claim;
pub mod entry;
pub mod laws;
pub mod open;
pub mod rug;
pub mod runtime;
pub mod state;

pub use claim::claim_winnings;
pub use claim::ClaimWinnings;
pub use entry::enter_game;
pub use entry::EnterGame;
pub use open::initialize_game;
pub use open::InitializeGame;
pub use rug::draw_survivor;
pub use rug::trigger_rug;
pub use rug::trigger_rug_at;
pub use rug::TriggerRug;
pub use state::Game;
pub use state::GameCreated;
pub use state::GameStatus;
pub use state::PlayerEntered;
pub use state::PlayerEntry;
pub use state::RugPulled;
pub use state::RugRouletteError;
pub use state::Wallet;
pub use state::WinningsClaimed;

verus! {

/// Number of tokens a player can pick from.
pub const NUM_TOKENS: usize = 6;

/// Number of tokens that are rugged when a round is resolved: all but the
/// survivor.
pub const NUM_RUGS: usize = 5;

} // verus!
