//! Pulling the rug: the authority resolves an open game, and one token is
//! left standing.
//!
//! The survivor is drawn from the cluster clock alone. Slot and timestamp are
//! public and known before the resolving transaction lands, so whoever
//! resolves the game can predict or choose the outcome. This is a weakness of
//! the game as it stands, stated here so that nobody takes the draw for a
//! fair one.

use crate::NUM_TOKENS;
use crate::runtime::read_clock;
use crate::runtime::same_key;
use crate::state::Game;
use crate::state::GameStatus;
use crate::state::RugPulled;
use crate::state::RugRouletteError;
use crate::state::lemma_rugged_wf;
use anchor_lang::prelude::Pubkey;
use vstd::prelude::*;

verus! {

/// What resolving touches: the game and the key that signed the request.
#[derive(Clone, Copy, Debug, PartialEq, Eq)]
pub struct TriggerRug {
    /// The key of the game account.
    pub game_key: Pubkey,
    pub game: Game,
    /// The key that signed the request.
    pub authority: Pubkey,
}

/// The seed of the draw: slot plus timestamp, wrapped around at 2^64.
pub open spec fn rug_seed(slot: u64, unix_timestamp: i64) -> nat {
    ((slot + unix_timestamp) % 0x1_0000_0000_0000_0000) as nat
}

/// The token that survives at the given slot and timestamp: the seed modulo
/// the number of tokens.
pub open spec fn survivor_at(slot: u64, unix_timestamp: i64) -> u8 {
    (rug_seed(slot, unix_timestamp) % (NUM_TOKENS as nat)) as u8
}

impl TriggerRug {
    /// Why resolving is refused, if it is. The checks come in this order: the
    /// signer is the game's authority; the game is open; somebody entered.
    pub open spec fn refusal(&self) -> Option<RugRouletteError> {
        if self.authority != self.game.authority {
            Some(RugRouletteError::Unauthorized)
        } else if self.game.status != GameStatus::Open {
            Some(RugRouletteError::GameNotOpen)
        } else if self.game.player_count == 0 {
            Some(RugRouletteError::NoPlayers)
        } else {
            None
        }
    }

    /// `post` is `self` after the rug was pulled with `survivor` left
    /// standing: the game is rugged and holds the survivor, nothing else
    /// changed.
    pub open spec fn rugged(&self, post: &TriggerRug, survivor: u8) -> bool {
        &&& post.game_key == self.game_key
        &&& post.authority == self.authority
        &&& post.game@ == self.game@.rugged(survivor)
    }

    /// The notification of a resolution that left `survivor` standing.
    pub open spec fn pulled(&self, survivor: u8) -> RugPulled {
        RugPulled {
            game: self.game_key,
            survivor_index: survivor,
            total_pot: self.game.total_pot,
            survivor_count: self.game.token_counts[survivor as int],
        }
    }
}

/// Makes the checks of [`TriggerRug::refusal`].
fn refused(ctx: &TriggerRug) -> (refusal: Option<RugRouletteError>)
    ensures
        refusal == ctx.refusal(),
{
    if !same_key(&ctx.authority, &ctx.game.authority) {
        Some(RugRouletteError::Unauthorized)
    } else if ctx.game.status != GameStatus::Open {
        Some(RugRouletteError::GameNotOpen)
    } else if ctx.game.player_count == 0 {
        Some(RugRouletteError::NoPlayers)
    } else {
        None
    }
}

/// Draws the survivor for the given slot and timestamp.
pub fn draw_survivor(slot: u64, unix_timestamp: i64) -> (survivor: u8)
    ensures
        survivor == survivor_at(slot, unix_timestamp),
        survivor < NUM_TOKENS,
{
    let seed: u64 = slot.wrapping_add_signed(unix_timestamp);
    (seed % (NUM_TOKENS as u64)) as u8
}

/// Resolves the game as of the given slot and timestamp.
///
/// Resolving is refused, and nothing changes, exactly when
/// [`TriggerRug::refusal`] names an error; so a second resolution of the same
/// game is refused with `GameNotOpen` and leaves the survivor as it was.
/// Otherwise the game becomes rugged with [`survivor_at`] as its survivor.
pub fn trigger_rug_at(ctx: &mut TriggerRug, slot: u64, unix_timestamp: i64) -> (result: Result<
    RugPulled,
    RugRouletteError,
>)
    requires
        old(ctx).game.wf(),
    ensures
        final(ctx).game.wf(),
        match result {
            Ok(event) => {
                &&& old(ctx).refusal() is None
                &&& old(ctx).rugged(final(ctx), survivor_at(slot, unix_timestamp))
                &&& event == old(ctx).pulled(survivor_at(slot, unix_timestamp))
            },
            Err(e) => old(ctx).refusal() == Some(e) && *final(ctx) == *old(ctx),
        },
{
    if let Some(e) = refused(ctx) {
        return Err(e);
    }
    let survivor: u8 = draw_survivor(slot, unix_timestamp);
    proof {
        lemma_rugged_wf(ctx.game@, survivor);
    }
    ctx.game.survivor_index = Some(survivor);
    ctx.game.status = GameStatus::Rugged;
    Ok(
        RugPulled {
            game: ctx.game_key,
            survivor_index: survivor,
            total_pot: ctx.game.total_pot,
            survivor_count: ctx.game.token_counts[survivor as usize],
        },
    )
}

/// Resolves the game as of now, by the cluster clock.
///
/// Where [`TriggerRug::refusal`] names an error, that error comes back and
/// the clock is not read. Otherwise the outcome rests on the clock: if it
/// cannot be read the game stays as it is and `ClockUnavailable` comes back;
/// if it can, the game is resolved as [`trigger_rug_at`] does for the slot and
/// timestamp read, with one of the six tokens as survivor.
pub fn trigger_rug(ctx: &mut TriggerRug) -> (result: Result<RugPulled, RugRouletteError>)
    requires
        old(ctx).game.wf(),
    ensures
        final(ctx).game.wf(),
        match result {
            Ok(event) => {
                &&& old(ctx).refusal() is None
                &&& event.survivor_index < NUM_TOKENS
                &&& old(ctx).rugged(final(ctx), event.survivor_index)
                &&& event == old(ctx).pulled(event.survivor_index)
            },
            Err(e) => {
                &&& *final(ctx) == *old(ctx)
                &&& old(ctx).refusal() is Some ==> old(ctx).refusal() == Some(e)
                &&& old(ctx).refusal() is None ==> e == RugRouletteError::ClockUnavailable
            },
        },
{
    if let Some(e) = refused(ctx) {
        return Err(e);
    }
    match read_clock() {
        Ok((slot, unix_timestamp)) => trigger_rug_at(ctx, slot, unix_timestamp),
        Err(_) => Err(RugRouletteError::ClockUnavailable),
    }
}

} // verus!
