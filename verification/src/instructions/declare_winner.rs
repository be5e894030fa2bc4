use vstd::prelude::*;
use crate::error::BoardoverseError;
use crate::escrow::{Escrow, EscrowView};
use crate::identity::Identity;

verus! {

/// Why `caller` may not resolve the wager under `game_id` in favour of
/// `winner`, if anything forbids it.
///
/// A wager that is not kept has ended, or never began: either way it is
/// answered as already terminal. Otherwise the caller must be the arbiter,
/// the wager active, and the winner a participant, tested in that order.
pub open spec fn declare_winner_refusal(
    pre: EscrowView,
    caller: Identity,
    winner: Identity,
    game_id: Seq<char>,
) -> Option<BoardoverseError> {
    if !pre.games.contains_key(game_id) {
        Some(BoardoverseError::AlreadyTerminal)
    } else {
        pre.games[game_id].resolve_refusal(winner, caller)
    }
}

/// The escrow after the wager under `game_id` was resolved in favour of
/// `winner`: the whole pot is paid to the winner and the record is gone.
pub open spec fn declare_winner_effect(
    pre: EscrowView,
    winner: Identity,
    game_id: Seq<char>,
) -> EscrowView {
    EscrowView {
        games: pre.games.remove(game_id),
        ledger: pre.ledger.released(winner, pre.games[game_id].pot as nat),
    }
}

/// Resolves the wager under `game_id` on the arbiter's word: `winner` is paid
/// the whole pot.
///
/// Either the pot is paid and the record is destroyed, or the call is refused
/// and nothing has changed.
pub fn declare_winner(ctx: &mut Escrow, caller: Identity, winner: Identity, game_id: String) -> (r:
    Result<(), BoardoverseError>)
    requires
        old(ctx).wf(),
    ensures
        final(ctx).wf(),
        match declare_winner_refusal(old(ctx)@, caller, winner, game_id@) {
            Some(e) => r == Err::<(), BoardoverseError>(e) && final(ctx)@ == old(ctx)@,
            None => r is Ok && final(ctx)@ == declare_winner_effect(old(ctx)@, winner, game_id@),
        },
{
    let mut game = match ctx.store.get(&game_id) {
        Some(found) => found.clone(),
        None => {
            return Err(BoardoverseError::AlreadyTerminal);
        },
    };
    let prize = match game.resolve(winner, caller) {
        Ok(prize) => prize,
        Err(e) => {
            return Err(e);
        },
    };
    proof {
        ctx.store.lemma_pot_covered(game_id@);
    }
    // Custody covers the pot of every wager kept, so the release cannot fail.
    match ctx.ledger.release(&winner, prize) {
        Ok(()) => {},
        Err(e) => {
            return Err(e);
        },
    }
    ctx.store.delete(&game_id);
    Ok(())
}

} // verus!
