//! Paying a survivor: an entry on the surviving token takes its share of the
//! pot out of the vault, once.
//!
//! The share is the pot divided by the number of survivors, rounded down.
//! What the division leaves over stays in the vault; no operation here takes
//! it out.

use crate::runtime::same_key;
use crate::state::Game;
use crate::state::GameStatus;
use crate::state::PlayerEntry;
use crate::state::RugRouletteError;
use crate::state::Wallet;
use crate::state::WinningsClaimed;
use anchor_lang::prelude::Pubkey;
use vstd::prelude::*;

verus! {

/// What a claim touches: the game, its vault, the entry and the player who
/// holds it.
#[derive(Clone, Copy, Debug, PartialEq, Eq)]
pub struct ClaimWinnings {
    /// The key of the game account.
    pub game_key: Pubkey,
    pub game: Game,
    pub game_vault: Wallet,
    pub player_entry: PlayerEntry,
    pub player: Wallet,
}

/// The share of each of `survivors` entries in `pot`: the quotient, rounded
/// down.
pub open spec fn share(pot: nat, survivors: nat) -> nat
    recommends
        survivors > 0,
{
    pot / survivors
}

impl ClaimWinnings {
    /// The accounts of a claim are well formed when the game is, and the
    /// balances of player and vault fit together.
    pub open spec fn wf(&self) -> bool {
        self.game.wf() && self.player.fits_with(&self.game_vault)
    }

    /// Tells whether the accounts are well formed: the test to make on
    /// accounts that come from elsewhere.
    pub fn is_well_formed(&self) -> (ok: bool)
        ensures
            ok == self.wf(),
    {
        self.game.is_well_formed() && self.player.is_fitting_with(&self.game_vault)
    }

    /// The number of entries on the surviving token.
    pub open spec fn survivors(&self) -> nat
        recommends
            self.game.survivor_index is Some,
    {
        self.game@.picked(self.game.survivor_index->0 as int)
    }

    /// What a survivor of this game is paid.
    pub open spec fn winnings(&self) -> nat {
        share(self.game.total_pot as nat, self.survivors())
    }

    /// Why a claim is refused, if it is. The checks come in this order: the
    /// entry belongs to this player and this game; the game is open or
    /// rugged; the entry was not paid before; the rug was pulled, so that the
    /// game holds a survivor; the entry picked the survivor; somebody picked
    /// it; the vault holds the share.
    ///
    /// So a claim made before the rug is pulled is refused with `NoSurvivor`,
    /// and `GameNotRugged` is the answer of a closed game.
    pub open spec fn refusal(&self) -> Option<RugRouletteError> {
        if self.player_entry.player != self.player.key || self.player_entry.game != self.game_key {
            Some(RugRouletteError::WrongEntry)
        } else if self.game.status == GameStatus::Closed {
            Some(RugRouletteError::GameNotRugged)
        } else if self.player_entry.claimed {
            Some(RugRouletteError::AlreadyClaimed)
        } else if self.game.status == GameStatus::Open {
            Some(RugRouletteError::NoSurvivor)
        } else if self.player_entry.token_index != self.game.survivor_index->0 {
            Some(RugRouletteError::NotASurvivor)
        } else if self.survivors() == 0 {
            Some(RugRouletteError::NoSurvivors)
        } else if self.game_vault.lamports < self.winnings() {
            Some(RugRouletteError::InsufficientVaultBalance)
        } else {
            None
        }
    }

    /// `post` is `self` after the entry was paid: the share went from the
    /// vault to the player, the entry is marked as claimed, and the game is as
    /// it was.
    pub open spec fn paid(&self, post: &ClaimWinnings) -> bool {
        &&& post.game_key == self.game_key
        &&& post.game == self.game
        &&& post.game_vault.key == self.game_vault.key
        &&& post.game_vault.lamports == self.game_vault.lamports - self.winnings()
        &&& post.player.key == self.player.key
        &&& post.player.lamports == self.player.lamports + self.winnings()
        &&& post.player_entry == (PlayerEntry { claimed: true, ..self.player_entry })
    }
}

/// Pays the entry its share of the pot.
///
/// The claim is refused, and nothing changes, exactly when
/// [`ClaimWinnings::refusal`] names an error: so nothing is paid before the
/// rug is pulled, an entry that was paid is never paid again, and an entry on
/// a token that did not survive is never paid at all. Otherwise
/// [`ClaimWinnings::winnings`] moves from the vault to the player, the entry
/// is marked as claimed, and the notification carries the amount.
pub fn claim_winnings(ctx: &mut ClaimWinnings) -> (result: Result<
    WinningsClaimed,
    RugRouletteError,
>)
    requires
        old(ctx).wf(),
    ensures
        final(ctx).wf(),
        match result {
            Ok(event) => {
                &&& old(ctx).refusal() is None
                &&& old(ctx).paid(final(ctx))
                &&& event == (WinningsClaimed {
                    game: old(ctx).game_key,
                    player: old(ctx).player.key,
                    amount: old(ctx).winnings() as u64,
                })
                &&& event.amount == old(ctx).winnings()
            },
            Err(e) => old(ctx).refusal() == Some(e) && *final(ctx) == *old(ctx),
        },
{
    if !same_key(&ctx.player_entry.player, &ctx.player.key) || !same_key(
        &ctx.player_entry.game,
        &ctx.game_key,
    ) {
        return Err(RugRouletteError::WrongEntry);
    }
    if ctx.game.status == GameStatus::Closed {
        return Err(RugRouletteError::GameNotRugged);
    }
    if ctx.player_entry.claimed {
        return Err(RugRouletteError::AlreadyClaimed);
    }
    let survivor: u8 = match ctx.game.survivor_index {
        Some(s) => s,
        None => {
            return Err(RugRouletteError::NoSurvivor);
        },
    };
    if ctx.player_entry.token_index != survivor {
        return Err(RugRouletteError::NotASurvivor);
    }
    let survivor_count: u32 = ctx.game.token_counts[survivor as usize];
    if survivor_count == 0 {
        return Err(RugRouletteError::NoSurvivors);
    }
    let winnings: u64 = ctx.game.total_pot / (survivor_count as u64);
    if ctx.game_vault.lamports < winnings {
        return Err(RugRouletteError::InsufficientVaultBalance);
    }
    ctx.game_vault.lamports = ctx.game_vault.lamports - winnings;
    ctx.player.lamports = ctx.player.lamports + winnings;
    ctx.player_entry.claimed = true;
    Ok(WinningsClaimed { game: ctx.game_key, player: ctx.player.key, amount: winnings })
}

} // verus!
