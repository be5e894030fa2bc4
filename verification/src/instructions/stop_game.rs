use vstd::prelude::*;
use crate::error::BoardoverseError;
use crate::escrow::{Escrow, EscrowView};
use crate::game::GameStatus;
use crate::identity::Identity;
use crate::ledger::LedgerView;

verus! {

/// Why `caller` may not cancel the wager under `game_id`, if anything forbids
/// it.
///
/// A wager that is not kept has ended, or never began: either way it is
/// answered as already terminal. Otherwise only the arbiter may cancel.
pub open spec fn stop_game_refusal(pre: EscrowView, caller: Identity, game_id: Seq<char>) -> Option<
    BoardoverseError,
> {
    if !pre.games.contains_key(game_id) {
        Some(BoardoverseError::AlreadyTerminal)
    } else {
        pre.games[game_id].cancel_refusal(caller)
    }
}

/// The books after the wager under `game_id` was refunded: the stake went
/// back to the initiator, and to the counterparty as well if one had joined.
pub open spec fn stop_game_refunds(pre: EscrowView, game_id: Seq<char>) -> LedgerView {
    let game = pre.games[game_id];
    let first = pre.ledger.released(game.initiator, game.stake as nat);
    if game.status == GameStatus::Active {
        first.released(game.counterparty, game.stake as nat)
    } else {
        first
    }
}

/// The escrow after the wager under `game_id` was cancelled: the deposits
/// are refunded and the record is gone.
pub open spec fn stop_game_effect(pre: EscrowView, game_id: Seq<char>) -> EscrowView {
    EscrowView { games: pre.games.remove(game_id), ledger: stop_game_refunds(pre, game_id) }
}

/// Cancels the wager under `game_id` on the arbiter's word and gives every
/// deposit back to the participant who made it.
///
/// Either the refunds are paid and the record is destroyed, or the call is
/// refused and nothing has changed.
pub fn stop_game(ctx: &mut Escrow, caller: Identity, game_id: String) -> (r: Result<
    (),
    BoardoverseError,
>)
    requires
        old(ctx).wf(),
    ensures
        final(ctx).wf(),
        match stop_game_refusal(old(ctx)@, caller, game_id@) {
            Some(e) => r == Err::<(), BoardoverseError>(e) && final(ctx)@ == old(ctx)@,
            None => r is Ok && final(ctx)@ == stop_game_effect(old(ctx)@, game_id@),
        },
{
    let mut game = match ctx.store.get(&game_id) {
        Some(found) => found.clone(),
        None => {
            return Err(BoardoverseError::AlreadyTerminal);
        },
    };
    let refund = match game.cancel(caller) {
        Ok(refund) => refund,
        Err(e) => {
            return Err(e);
        },
    };
    proof {
        ctx.store.lemma_pot_covered(game_id@);
    }
    // Custody covers the pot of every wager kept, so neither release can fail.
    match ctx.ledger.release(&game.initiator, refund.to_initiator) {
        Ok(()) => {},
        Err(e) => {
            return Err(e);
        },
    }
    if refund.to_counterparty > 0 {
        match ctx.ledger.release(&game.counterparty, refund.to_counterparty) {
            Ok(()) => {},
            Err(e) => {
                return Err(e);
            },
        }
    }
    ctx.store.delete(&game_id);
    Ok(())
}

} // verus!
