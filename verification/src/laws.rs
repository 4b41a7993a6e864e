//! What holds of the game over more than one operation.
//!
//! Each operation states its own outcome. The lemmas here put those outcomes
//! together: the books balance after any run of entries, nothing is done
//! twice, and the vault never pays out more than the pot.

use crate::NUM_TOKENS;
use crate::claim::ClaimWinnings;
use crate::claim::share;
use crate::entry::EnterGame;
use crate::rug::TriggerRug;
use crate::state::GameStatus;
use crate::state::GameView;
use crate::state::RugRouletteError;
use crate::state::count_sum;
use crate::state::lemma_entered_wf;
use vstd::prelude::*;

verus! {

/// The game after one entry on each of `tokens`, in their order.
pub open spec fn after_entries(game: GameView, tokens: Seq<u8>) -> GameView
    decreases tokens.len(),
{
    if tokens.len() == 0 {
        game
    } else {
        after_entries(game, tokens.drop_last()).entered(tokens.last() as int)
    }
}

/// After any run of entries on a well-formed game the books balance: the
/// game is well formed, so the pot is the fee times the number of players and
/// the counts per token add up to the number of players; the fee is the same;
/// the game has as many more players as there were entries, and the pot grew
/// by the fee for each.
pub proof fn lemma_entries_balance(game: GameView, tokens: Seq<u8>)
    requires
        game.wf(),
        forall|i: int| 0 <= i < tokens.len() ==> tokens[i] < NUM_TOKENS,
    ensures
        after_entries(game, tokens).wf(),
        after_entries(game, tokens).total_pot == after_entries(game, tokens).entry_fee
            * after_entries(game, tokens).player_count,
        count_sum(after_entries(game, tokens).token_counts) == after_entries(
            game,
            tokens,
        ).player_count,
        after_entries(game, tokens).entry_fee == game.entry_fee,
        after_entries(game, tokens).status == game.status,
        after_entries(game, tokens).player_count == game.player_count + tokens.len(),
        after_entries(game, tokens).total_pot == game.total_pot + game.entry_fee * tokens.len(),
    decreases tokens.len(),
{
    if tokens.len() > 0 {
        let before = after_entries(game, tokens.drop_last());
        lemma_entries_balance(game, tokens.drop_last());
        lemma_entered_wf(before, tokens.last() as int);
        let fee = game.entry_fee;
        let n = tokens.drop_last().len();
        assert(fee * (n + 1) == fee * n + fee) by (nonlinear_arith);
    } else {
        assert(game.entry_fee * 0 == 0) by (nonlinear_arith);
    }
}

/// The books balance after each entry of a run, not only after the last:
/// the game is well formed after every prefix of the run.
pub proof fn lemma_entries_balance_throughout(game: GameView, tokens: Seq<u8>, done: int)
    requires
        game.wf(),
        forall|i: int| 0 <= i < tokens.len() ==> tokens[i] < NUM_TOKENS,
        0 <= done <= tokens.len(),
    ensures
        after_entries(game, tokens.take(done)).wf(),
        after_entries(game, tokens.take(done)).player_count == game.player_count + done,
        after_entries(game, tokens.take(done)).total_pot == game.total_pot + game.entry_fee * done,
{
    lemma_entries_balance(game, tokens.take(done));
}

/// A run of entries on a fresh game leaves a pot of the fee times the
/// number of entries.
pub proof fn lemma_entries_from_opening(game: GameView, tokens: Seq<u8>)
    requires
        game.wf(),
        game.player_count == 0,
        forall|i: int| 0 <= i < tokens.len() ==> tokens[i] < NUM_TOKENS,
    ensures
        after_entries(game, tokens).player_count == tokens.len(),
        after_entries(game, tokens).total_pot == game.entry_fee * tokens.len(),
        count_sum(after_entries(game, tokens).token_counts) == tokens.len(),
{
    lemma_entries_balance(game, tokens);
    assert(game.entry_fee * 0 == 0) by (nonlinear_arith);
}

/// An entry is owed to every player who can pay. On well-formed accounts
/// with an open game, a token that exists, no entry of this player yet and a
/// balance that covers the fee, the entry is taken, unless the pot or the
/// number of players cannot hold one more. The game after it is well formed
/// again, with one more player and the fee added to the pot.
pub proof fn lemma_entry_is_owed(pre: EnterGame, token_index: u8)
    requires
        pre.wf(),
        pre.game.status == GameStatus::Open,
        token_index < NUM_TOKENS,
        pre.player_entry is None,
        pre.player.lamports >= pre.game.entry_fee,
        pre.game.total_pot + pre.game.entry_fee <= u64::MAX,
        pre.game.player_count + 1 <= u32::MAX,
    ensures
        pre.refusal(token_index) is None,
        pre.game@.entered(token_index as int).wf(),
        pre.game@.entered(token_index as int).player_count == pre.game.player_count + 1,
        pre.game@.entered(token_index as int).total_pot == pre.game@.entered(
            token_index as int,
        ).entry_fee * pre.game@.entered(token_index as int).player_count,
        count_sum(pre.game@.entered(token_index as int).token_counts) == pre.game@.entered(
            token_index as int,
        ).player_count,
{
    lemma_entered_wf(pre.game@, token_index as int);
}

/// No operation makes or loses lamports: what an entry takes from the player
/// the vault gets, what a claim takes from the vault the player gets, so
/// player and vault hold together what they held before.
pub proof fn lemma_stakes_are_conserved(
    entry: EnterGame,
    entered: EnterGame,
    token_index: u8,
    claim: ClaimWinnings,
    paid: ClaimWinnings,
)
    requires
        entry.entered(&entered, token_index),
        claim.paid(&paid),
    ensures
        entered.player.lamports + entered.game_vault.lamports == entry.player.lamports
            + entry.game_vault.lamports,
        paid.player.lamports + paid.game_vault.lamports == claim.player.lamports
            + claim.game_vault.lamports,
{
}

/// A player enters a game once: after an entry was taken, another entry of
/// the same player in the same game is refused with `AccountInUse`, whatever
/// token it names.
pub proof fn lemma_second_entry_refused(pre: EnterGame, post: EnterGame, first: u8, second: u8)
    requires
        pre.refusal(first) is None,
        pre.entered(&post, first),
    ensures
        post.refusal(second) == Some(RugRouletteError::AccountInUse),
{
}

/// A game without players is not resolved: when its authority asks, the
/// answer is `NoPlayers`, unless the game is closed.
pub proof fn lemma_empty_game_not_resolved(ctx: TriggerRug)
    requires
        ctx.game.wf(),
        ctx.authority == ctx.game.authority,
        ctx.game.status != GameStatus::Closed,
        ctx.game.player_count == 0,
    ensures
        ctx.refusal() == Some(RugRouletteError::NoPlayers),
{
}

/// A game is resolved once: after the rug was pulled, the game holds the
/// survivor, and every further request to resolve it is refused, with
/// `GameNotOpen` where the authority asks.
pub proof fn lemma_second_rug_refused(pre: TriggerRug, post: TriggerRug, survivor: u8, again: TriggerRug)
    requires
        pre.refusal() is None,
        pre.rugged(&post, survivor),
        again.game == post.game,
    ensures
        post.game.survivor_index == Some(survivor),
        post.refusal() == Some(RugRouletteError::GameNotOpen),
        again.refusal() is Some,
        again.authority == again.game.authority ==> again.refusal() == Some(
            RugRouletteError::GameNotOpen,
        ),
{
}

/// Once the rug is pulled the game is frozen: no entry is taken, no
/// resolution is made, and a claim that is paid leaves the game as it was.
/// So the pot, the counts and the survivor of a rugged game never change.
pub proof fn lemma_rugged_game_is_frozen(
    entry: EnterGame,
    token_index: u8,
    rug: TriggerRug,
    claim: ClaimWinnings,
    paid: ClaimWinnings,
)
    requires
        entry.game.status == GameStatus::Rugged,
        rug.game.status == GameStatus::Rugged,
        claim.paid(&paid),
    ensures
        entry.refusal(token_index) is Some,
        rug.refusal() is Some,
        paid.game == claim.game,
{
}

/// The shares add up to no more than the pot. With `survivors` entries on
/// the surviving token, `claims` of them paid takes `claims` shares; all of
/// them paid leaves exactly the remainder of the division, which is less than
/// the number of survivors.
pub proof fn lemma_shares_within_pot(pot: nat, survivors: nat, claims: nat)
    requires
        survivors > 0,
        claims <= survivors,
    ensures
        claims * share(pot, survivors) <= pot,
        pot - claims * share(pot, survivors) >= pot % survivors,
        pot - survivors * share(pot, survivors) == pot % survivors,
        pot % survivors < survivors,
{
    let s = share(pot, survivors);
    assert(pot == survivors * (pot / survivors) + pot % survivors && 0 <= pot % survivors
        < survivors) by (nonlinear_arith)
        requires
            survivors > 0,
    ;
    assert(claims * s <= survivors * s) by (nonlinear_arith)
        requires
            claims <= survivors,
    ;
}

/// A vault that took every stake never runs short. If the vault holds at
/// least the pot less the shares already paid, and fewer entries were paid
/// than survived, it holds the next share.
pub proof fn lemma_vault_covers_share(pot: nat, survivors: nat, paid: nat, vault: nat)
    requires
        survivors > 0,
        paid < survivors,
        vault + paid * share(pot, survivors) >= pot,
    ensures
        vault >= share(pot, survivors),
{
    lemma_shares_within_pot(pot, survivors, paid + 1);
    let s = share(pot, survivors);
    assert((paid + 1) * s == paid * s + s) by (nonlinear_arith);
}

/// When every survivor was paid, the vault holds what it held beyond the
/// pot, and the remainder of the division on top. If the vault held at least
/// the pot when the rug was pulled, then before the last of the survivors is
/// paid it still holds a share, and after that it keeps the remainder, which
/// is less than the number of survivors.
pub proof fn lemma_vault_keeps_the_remainder(pot: nat, survivors: nat, vault: nat)
    requires
        survivors > 0,
        vault >= pot,
    ensures
        vault - (survivors - 1) * share(pot, survivors) >= share(pot, survivors),
        vault - survivors * share(pot, survivors) == (vault - pot) + pot % survivors,
        vault - survivors * share(pot, survivors) >= pot % survivors,
        pot % survivors < survivors,
{
    lemma_shares_within_pot(pot, survivors, survivors);
    let s = share(pot, survivors);
    assert((survivors - 1) * s + s == survivors * s) by (nonlinear_arith);
}

/// A survivor is owed the share. On well-formed accounts with a rugged
/// game, the claim of the player's own, unclaimed entry on the surviving
/// token is paid, if only the game counts an entry on that token and the
/// vault holds the share; what is paid is the pot divided by the number of
/// survivors, rounded down, and the player's balance can always take it.
pub proof fn lemma_survivor_is_owed(pre: ClaimWinnings)
    requires
        pre.wf(),
        pre.game.status == GameStatus::Rugged,
        pre.player_entry.player == pre.player.key,
        pre.player_entry.game == pre.game_key,
        !pre.player_entry.claimed,
        pre.game.survivor_index == Some(pre.player_entry.token_index),
        pre.survivors() > 0,
        pre.game_vault.lamports >= pre.winnings(),
    ensures
        pre.refusal() is None,
        pre.winnings() == pre.game.total_pot as nat / pre.survivors(),
        pre.player.lamports + pre.winnings() <= u64::MAX,
{
}

/// Nothing is paid before the rug is pulled: every claim on an open game
/// is refused, and that of the player's own, unclaimed entry with
/// `NoSurvivor`.
pub proof fn lemma_no_claim_before_the_rug(ctx: ClaimWinnings)
    requires
        ctx.game.status == GameStatus::Open,
    ensures
        ctx.refusal() is Some,
        (ctx.player_entry.player == ctx.player.key && ctx.player_entry.game == ctx.game_key
            && !ctx.player_entry.claimed) ==> ctx.refusal() == Some(RugRouletteError::NoSurvivor),
{
}

/// An entry is paid once: after a claim was paid, the same claim is
/// refused with `AlreadyClaimed`.
pub proof fn lemma_second_claim_refused(pre: ClaimWinnings, post: ClaimWinnings)
    requires
        pre.refusal() is None,
        pre.paid(&post),
    ensures
        post.refusal() == Some(RugRouletteError::AlreadyClaimed),
{
}

/// An entry on a token that did not survive is never paid: its claim is
/// always refused, and with `NotASurvivor` where the entry belongs to the
/// player and the game, the game is rugged, and the entry is unclaimed.
pub proof fn lemma_loser_never_paid(ctx: ClaimWinnings)
    requires
        ctx.game.wf(),
        ctx.game.survivor_index != Some(ctx.player_entry.token_index),
    ensures
        ctx.refusal() is Some,
        (ctx.player_entry.player == ctx.player.key && ctx.player_entry.game == ctx.game_key
            && ctx.game.status == GameStatus::Rugged && !ctx.player_entry.claimed)
            ==> ctx.refusal() == Some(RugRouletteError::NotASurvivor),
{
}

} // verus!
