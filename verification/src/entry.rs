//! Taking a stake: a player pays the entry fee into the vault and picks a
//! token.

use crate::NUM_TOKENS;
use crate::state::Game;
use crate::state::GameStatus;
use crate::state::PlayerEntered;
use crate::state::PlayerEntry;
use crate::state::RugRouletteError;
use crate::state::Wallet;
use crate::state::lemma_entered_wf;
use anchor_lang::prelude::Pubkey;
use vstd::prelude::*;

verus! {

/// What an entry touches: the game, its vault, the paying player, and the
/// place where the player's entry for this game is kept.
#[derive(Clone, Copy, Debug, PartialEq, Eq)]
pub struct EnterGame {
    /// The key of the game account.
    pub game_key: Pubkey,
    pub game: Game,
    pub game_vault: Wallet,
    /// The entry of this player in this game; `None` while there is none.
    pub player_entry: Option<PlayerEntry>,
    /// The bump of the place where the entry is kept.
    pub entry_bump: u8,
    pub player: Wallet,
}

impl EnterGame {
    /// The accounts of an entry are well formed when the game is, and the
    /// balances of player and vault fit together.
    pub open spec fn wf(&self) -> bool {
        self.game.wf() && self.player.fits_with(&self.game_vault)
    }

    /// Tells whether the accounts are well formed: the test to make on
    /// accounts that come from elsewhere.
    pub fn is_well_formed(&self) -> (ok: bool)
        ensures
            ok == self.wf(),
    {
        self.game.is_well_formed() && self.player.is_fitting_with(&self.game_vault)
    }

    /// Why an entry on `token_index` is refused, if it is. The checks come in
    /// this order: the player has no entry in this game yet; the token exists;
    /// the game is open; the player can pay the fee; the pot and the number of
    /// players can hold one more entry.
    pub open spec fn refusal(&self, token_index: u8) -> Option<RugRouletteError> {
        if self.player_entry is Some {
            Some(RugRouletteError::AccountInUse)
        } else if token_index >= NUM_TOKENS {
            Some(RugRouletteError::InvalidTokenIndex)
        } else if self.game.status != GameStatus::Open {
            Some(RugRouletteError::GameNotOpen)
        } else if self.player.lamports < self.game.entry_fee {
            Some(RugRouletteError::InsufficientFunds)
        } else if self.game.total_pot + self.game.entry_fee > u64::MAX || self.game.player_count
            + 1 > u32::MAX {
            Some(RugRouletteError::Overflow)
        } else {
            None
        }
    }

    /// `post` is `self` after an entry on `token_index`: the fee went from
    /// the player to the vault, the game counted the entry, and the entry was
    /// written down, unclaimed.
    pub open spec fn entered(&self, post: &EnterGame, token_index: u8) -> bool {
        &&& post.game_key == self.game_key
        &&& post.entry_bump == self.entry_bump
        &&& post.game@ == self.game@.entered(token_index as int)
        &&& post.player.key == self.player.key
        &&& post.player.lamports == self.player.lamports - self.game.entry_fee
        &&& post.game_vault.key == self.game_vault.key
        &&& post.game_vault.lamports == self.game_vault.lamports + self.game.entry_fee
        &&& post.player_entry == Some(
            PlayerEntry {
                player: self.player.key,
                game: self.game_key,
                token_index,
                claimed: false,
                bump: self.entry_bump,
            },
        )
    }
}

/// Enters the player into the game on `token_index`.
///
/// The entry is refused, and nothing changes, exactly when
/// [`EnterGame::refusal`] names an error. Otherwise the fee moves from the
/// player to the vault, the game counts the entry, the entry is recorded
/// unclaimed, and the notification carries the new pot.
pub fn enter_game(ctx: &mut EnterGame, token_index: u8) -> (result: Result<
    PlayerEntered,
    RugRouletteError,
>)
    requires
        old(ctx).wf(),
    ensures
        final(ctx).wf(),
        match result {
            Ok(event) => {
                &&& old(ctx).refusal(token_index) is None
                &&& old(ctx).entered(final(ctx), token_index)
                &&& event == (PlayerEntered {
                    game: old(ctx).game_key,
                    player: old(ctx).player.key,
                    token_index,
                    total_pot: final(ctx).game.total_pot,
                })
            },
            Err(e) => old(ctx).refusal(token_index) == Some(e) && *final(ctx) == *old(ctx),
        },
{
    if ctx.player_entry.is_some() {
        return Err(RugRouletteError::AccountInUse);
    }
    if token_index as usize >= NUM_TOKENS {
        return Err(RugRouletteError::InvalidTokenIndex);
    }
    if ctx.game.status != GameStatus::Open {
        return Err(RugRouletteError::GameNotOpen);
    }
    let fee: u64 = ctx.game.entry_fee;
    if ctx.player.lamports < fee {
        return Err(RugRouletteError::InsufficientFunds);
    }
    if ctx.game.total_pot > u64::MAX - fee || ctx.game.player_count == u32::MAX {
        return Err(RugRouletteError::Overflow);
    }
    let slot: usize = token_index as usize;
    let picked: u32 = ctx.game.token_counts[slot];
    proof {
        lemma_entered_wf(ctx.game@, slot as int);
    }
    ctx.player.lamports = ctx.player.lamports - fee;
    ctx.game_vault.lamports = ctx.game_vault.lamports + fee;
    ctx.player_entry = Some(
        PlayerEntry {
            player: ctx.player.key,
            game: ctx.game_key,
            token_index,
            claimed: false,
            bump: ctx.entry_bump,
        },
    );
    ctx.game.total_pot = ctx.game.total_pot + fee;
    ctx.game.player_count = ctx.game.player_count + 1;
    ctx.game.token_counts[slot] = picked + 1;
    proof {
        assert(ctx.game@.token_counts =~= old(ctx).game@.entered(token_index as int).token_counts);
    }
    Ok(
        PlayerEntered {
            game: ctx.game_key,
            player: ctx.player.key,
            token_index,
            total_pot: ctx.game.total_pot,
        },
    )
}

} // verus!
