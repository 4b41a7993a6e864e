//! The records of a round: the game itself, one entry per player, the
//! balances that stakes move between, and the notifications an operation
//! hands back.

use crate::NUM_TOKENS;
use anchor_lang::prelude::Pubkey;
use vstd::prelude::*;

verus! {

/// Where a round stands in its life. A round only ever moves from `Open` to
/// `Rugged`; `Closed` is kept for a later clean-up and no operation here
/// reaches it.
#[derive(Clone, Copy, Debug, PartialEq, Eq, Structural)]
pub enum GameStatus {
    Open,
    Rugged,
    Closed,
}

/// Why an operation was refused. A refused operation changes nothing.
#[derive(Clone, Copy, Debug, PartialEq, Eq, Structural)]
pub enum RugRouletteError {
    /// The token index is not below the number of tokens.
    InvalidTokenIndex,
    /// The game does not take entries, or was already resolved.
    GameNotOpen,
    /// The game is neither open nor rugged, so nothing is claimed from it.
    GameNotRugged,
    /// Nobody entered the game.
    NoPlayers,
    /// The game holds no survivor: the rug has not been pulled yet.
    NoSurvivor,
    /// The entry picked a token that did not survive.
    NotASurvivor,
    /// The entry was paid before.
    AlreadyClaimed,
    /// Nobody picked the surviving token.
    NoSurvivors,
    /// The signer is not the authority of the game.
    Unauthorized,
    /// The entry belongs to another game or another player.
    WrongEntry,
    /// A record already exists at the place where one was to be created.
    AccountInUse,
    /// The player cannot cover the entry fee.
    InsufficientFunds,
    /// The vault holds less than the share it owes.
    InsufficientVaultBalance,
    /// The pot or the number of players cannot hold one more entry.
    Overflow,
    /// The cluster clock could not be read.
    ClockUnavailable,
}

impl RugRouletteError {
    /// The message of each error, as a sequence of characters.
    pub open spec fn text(self) -> Seq<char> {
        match self {
            RugRouletteError::InvalidTokenIndex => "Invalid token index. Must be 0-5."@,
            RugRouletteError::GameNotOpen => "Game is not open for entries."@,
            RugRouletteError::GameNotRugged => "Game has not been rugged yet."@,
            RugRouletteError::NoPlayers => "No players in the game."@,
            RugRouletteError::NoSurvivor => "No survivor has been determined."@,
            RugRouletteError::NotASurvivor => "You are not a survivor. RUGGED!"@,
            RugRouletteError::AlreadyClaimed => "Winnings already claimed."@,
            RugRouletteError::NoSurvivors => "No survivors for this token."@,
            RugRouletteError::Unauthorized => "Signer is not the authority of the game."@,
            RugRouletteError::WrongEntry => "Entry belongs to another game or player."@,
            RugRouletteError::AccountInUse => "Account already in use."@,
            RugRouletteError::InsufficientFunds => "Insufficient funds for the entry fee."@,
            RugRouletteError::InsufficientVaultBalance => "Vault balance is below the winnings."@,
            RugRouletteError::Overflow => "Amount does not fit."@,
            RugRouletteError::ClockUnavailable => "Cluster clock is not available."@,
        }
    }

    /// The message that goes with the error.
    pub fn message(self) -> (text: &'static str)
        ensures
            text@ == self.text(),
    {
        match self {
            RugRouletteError::InvalidTokenIndex => "Invalid token index. Must be 0-5.",
            RugRouletteError::GameNotOpen => "Game is not open for entries.",
            RugRouletteError::GameNotRugged => "Game has not been rugged yet.",
            RugRouletteError::NoPlayers => "No players in the game.",
            RugRouletteError::NoSurvivor => "No survivor has been determined.",
            RugRouletteError::NotASurvivor => "You are not a survivor. RUGGED!",
            RugRouletteError::AlreadyClaimed => "Winnings already claimed.",
            RugRouletteError::NoSurvivors => "No survivors for this token.",
            RugRouletteError::Unauthorized => "Signer is not the authority of the game.",
            RugRouletteError::WrongEntry => "Entry belongs to another game or player.",
            RugRouletteError::AccountInUse => "Account already in use.",
            RugRouletteError::InsufficientFunds => "Insufficient funds for the entry fee.",
            RugRouletteError::InsufficientVaultBalance => "Vault balance is below the winnings.",
            RugRouletteError::Overflow => "Amount does not fit.",
            RugRouletteError::ClockUnavailable => "Cluster clock is not available.",
        }
    }
}

/// The ledger of one round.
#[derive(Clone, Copy, Debug, PartialEq, Eq)]
pub struct Game {
    /// The only key allowed to resolve the round.
    pub authority: Pubkey,
    /// The stake every player pays.
    pub entry_fee: u64,
    /// The sum of all stakes paid.
    pub total_pot: u64,
    /// The number of entries taken.
    pub player_count: u32,
    pub status: GameStatus,
    /// The token that survived, once the round is resolved.
    pub survivor_index: Option<u8>,
    /// For each token, the number of entries that picked it.
    pub token_counts: [u32; NUM_TOKENS],
    pub bump: u8,
}

/// One player's stake in one game.
#[derive(Clone, Copy, Debug, PartialEq, Eq)]
pub struct PlayerEntry {
    pub player: Pubkey,
    pub game: Pubkey,
    pub token_index: u8,
    pub claimed: bool,
    pub bump: u8,
}

/// An account as far as this game reads it: its key and its balance.
#[derive(Clone, Copy, Debug, PartialEq, Eq)]
pub struct Wallet {
    pub key: Pubkey,
    pub lamports: u64,
}

impl Wallet {
    /// The balances of `self` and `other` fit together in a `u64`. Two
    /// accounts of one ledger always do: the ledger counts its whole supply
    /// in a `u64`. So an amount that leaves one of them can always be taken
    /// by the other.
    pub open spec fn fits_with(&self, other: &Wallet) -> bool {
        self.lamports + other.lamports <= u64::MAX
    }

    /// Tells whether the balances of `self` and `other` fit together.
    pub fn is_fitting_with(&self, other: &Wallet) -> (ok: bool)
        ensures
            ok == self.fits_with(other),
    {
        self.lamports <= u64::MAX - other.lamports
    }
}

/// A game was created.
#[derive(Clone, Copy, Debug, PartialEq, Eq)]
pub struct GameCreated {
    pub game: Pubkey,
    pub authority: Pubkey,
    pub entry_fee: u64,
}

/// A player entered; `total_pot` is the pot after the entry.
#[derive(Clone, Copy, Debug, PartialEq, Eq)]
pub struct PlayerEntered {
    pub game: Pubkey,
    pub player: Pubkey,
    pub token_index: u8,
    pub total_pot: u64,
}

/// A game was resolved.
#[derive(Clone, Copy, Debug, PartialEq, Eq)]
pub struct RugPulled {
    pub game: Pubkey,
    pub survivor_index: u8,
    pub total_pot: u64,
    pub survivor_count: u32,
}

/// A survivor was paid.
#[derive(Clone, Copy, Debug, PartialEq, Eq)]
pub struct WinningsClaimed {
    pub game: Pubkey,
    pub player: Pubkey,
    pub amount: u64,
}

/// The number of entries counted over all six tokens.
pub open spec fn count_sum(counts: Seq<nat>) -> nat {
    counts[0] + counts[1] + counts[2] + counts[3] + counts[4] + counts[5]
}

/// A game as a mathematical value: amounts and counters are unbounded
/// naturals, the counts per token a sequence of six.
pub struct GameView {
    pub authority: Pubkey,
    pub entry_fee: nat,
    pub total_pot: nat,
    pub player_count: nat,
    pub status: GameStatus,
    pub survivor_index: Option<u8>,
    pub token_counts: Seq<nat>,
    pub bump: u8,
}

impl GameView {
    /// The invariant of a game. The pot is the fee times the number of
    /// players; the counts per token add up to the number of players; a
    /// survivor is set exactly when the game is rugged, and names a token; a
    /// rugged game has players.
    pub open spec fn wf(self) -> bool {
        &&& self.token_counts.len() == NUM_TOKENS
        &&& self.total_pot == self.entry_fee * self.player_count
        &&& count_sum(self.token_counts) == self.player_count
        &&& (self.survivor_index is Some <==> self.status == GameStatus::Rugged)
        &&& (self.survivor_index matches Some(s) ==> s < NUM_TOKENS)
        &&& (self.status == GameStatus::Rugged ==> self.player_count > 0)
    }

    /// A fresh game: open, empty, without a survivor.
    pub open spec fn opened(authority: Pubkey, entry_fee: nat, bump: u8) -> GameView {
        GameView {
            authority,
            entry_fee,
            total_pot: 0,
            player_count: 0,
            status: GameStatus::Open,
            survivor_index: None,
            token_counts: Seq::new(NUM_TOKENS as nat, |i: int| 0nat),
            bump,
        }
    }

    /// The game after one more entry on `token`: the pot grows by the fee,
    /// the number of players and the count of `token` by one.
    pub open spec fn entered(self, token: int) -> GameView {
        GameView {
            total_pot: self.total_pot + self.entry_fee,
            player_count: self.player_count + 1,
            token_counts: self.token_counts.update(token, self.token_counts[token] + 1),
            ..self
        }
    }

    /// The game after the rug was pulled and `survivor` was left standing.
    pub open spec fn rugged(self, survivor: u8) -> GameView {
        GameView { status: GameStatus::Rugged, survivor_index: Some(survivor), ..self }
    }

    /// The number of entries that picked `token`.
    pub open spec fn picked(self, token: int) -> nat {
        self.token_counts[token]
    }
}

impl View for Game {
    type V = GameView;

    open spec fn view(&self) -> GameView {
        GameView {
            authority: self.authority,
            entry_fee: self.entry_fee as nat,
            total_pot: self.total_pot as nat,
            player_count: self.player_count as nat,
            status: self.status,
            survivor_index: self.survivor_index,
            token_counts: self.token_counts@.map_values(|c: u32| c as nat),
            bump: self.bump,
        }
    }
}

impl Game {
    /// A game is well formed when its view is.
    pub open spec fn wf(&self) -> bool {
        self@.wf()
    }

    /// Tells whether the game is well formed. Every operation on a game
    /// asks for a well-formed one; this is the test to make on a game that
    /// comes from elsewhere.
    pub fn is_well_formed(&self) -> (ok: bool)
        ensures
            ok == self.wf(),
    {
        let counts = &self.token_counts;
        let counted: u64 = counts[0] as u64 + counts[1] as u64 + counts[2] as u64 + counts[3] as u64
            + counts[4] as u64 + counts[5] as u64;
        assert(self.entry_fee * self.player_count <= 0xffff_ffff_ffff_ffff * 0xffff_ffff)
            by (nonlinear_arith);
        let owed: u128 = (self.entry_fee as u128) * (self.player_count as u128);
        let survivor_fits = match self.survivor_index {
            Some(s) => self.status == GameStatus::Rugged && (s as usize) < NUM_TOKENS,
            None => self.status != GameStatus::Rugged,
        };
        let rugged_has_players = self.status != GameStatus::Rugged || self.player_count > 0;
        proof {
            let view = self@.token_counts;
            assert(count_sum(view) == counted);
        }
        self.total_pot as u128 == owed && counted == self.player_count as u64 && survivor_fits
            && rugged_has_players
    }
}

/// A fresh game is well formed.
pub proof fn lemma_opened_wf(authority: Pubkey, entry_fee: nat, bump: u8)
    ensures
        GameView::opened(authority, entry_fee, bump).wf(),
{
    assert(entry_fee * 0 == 0) by (nonlinear_arith);
}

/// An entry on one of the six tokens keeps a game well formed.
pub proof fn lemma_entered_wf(game: GameView, token: int)
    requires
        game.wf(),
        0 <= token < NUM_TOKENS,
    ensures
        game.entered(token).wf(),
{
    let fee = game.entry_fee;
    let n = game.player_count;
    assert(fee * (n + 1) == fee * n + fee) by (nonlinear_arith);
}

/// Pulling the rug on a game with players keeps it well formed.
pub proof fn lemma_rugged_wf(game: GameView, survivor: u8)
    requires
        game.wf(),
        game.player_count > 0,
        survivor < NUM_TOKENS,
    ensures
        game.rugged(survivor).wf(),
{
}

} // verus!
