//! Opening a round: a fresh game is written down for its authority.
//!
//! Any fee is taken, zero included: a game with a fee of zero runs like any
//! other and pays nothing.

use crate::NUM_TOKENS;
use crate::state::Game;
use crate::state::GameCreated;
use crate::state::GameStatus;
use crate::state::GameView;
use crate::state::RugRouletteError;
use crate::state::lemma_opened_wf;
use anchor_lang::prelude::Pubkey;
use vstd::prelude::*;

verus! {

/// What opening touches: the place where the game is kept, and the key that
/// will be its authority.
#[derive(Clone, Copy, Debug, PartialEq, Eq)]
pub struct InitializeGame {
    /// The key of the game account.
    pub game_key: Pubkey,
    /// The game kept at that key; `None` while there is none.
    pub game: Option<Game>,
    /// The bump of the place where the game is kept.
    pub game_bump: u8,
    /// The key that signed the request.
    pub authority: Pubkey,
}

impl InitializeGame {
    /// Why opening is refused, if it is: a game is already kept at this key.
    pub open spec fn refusal(&self) -> Option<RugRouletteError> {
        if self.game is Some {
            Some(RugRouletteError::AccountInUse)
        } else {
            None
        }
    }

    /// `post` is `self` after a game with `entry_fee` was opened: the place
    /// holds a fresh game whose authority is the signer.
    pub open spec fn opened(&self, post: &InitializeGame, entry_fee: u64) -> bool {
        &&& post.game_key == self.game_key
        &&& post.game_bump == self.game_bump
        &&& post.authority == self.authority
        &&& post.game matches Some(game)
        &&& game@ == GameView::opened(self.authority, entry_fee as nat, self.game_bump)
    }
}

/// Opens a game with the given entry fee.
///
/// Opening is refused, and nothing changes, exactly when a game is already
/// kept at the key. Otherwise the place holds a fresh game: open, with
/// the signer as authority, the given fee, an empty pot, no players, no
/// entries on any token and no survivor.
pub fn initialize_game(ctx: &mut InitializeGame, entry_fee: u64) -> (result: Result<
    GameCreated,
    RugRouletteError,
>)
    ensures
        match result {
            Ok(event) => {
                &&& old(ctx).refusal() is None
                &&& old(ctx).opened(final(ctx), entry_fee)
                &&& final(ctx).game->0.wf()
                &&& event == (GameCreated {
                    game: old(ctx).game_key,
                    authority: old(ctx).authority,
                    entry_fee,
                })
            },
            Err(e) => old(ctx).refusal() == Some(e) && *final(ctx) == *old(ctx),
        },
{
    if ctx.game.is_some() {
        return Err(RugRouletteError::AccountInUse);
    }
    let game = Game {
        authority: ctx.authority,
        entry_fee,
        total_pot: 0,
        player_count: 0,
        status: GameStatus::Open,
        survivor_index: None,
        token_counts: [0u32;NUM_TOKENS],
        bump: ctx.game_bump,
    };
    proof {
        let fresh = GameView::opened(ctx.authority, entry_fee as nat, ctx.game_bump);
        assert(game@.token_counts =~= fresh.token_counts);
        lemma_opened_wf(ctx.authority, entry_fee as nat, ctx.game_bump);
    }
    ctx.game = Some(game);
    Ok(GameCreated { game: ctx.game_key, authority: ctx.authority, entry_fee })
}

} // verus!
