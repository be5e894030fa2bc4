use vstd::prelude::*;
use crate::error::BoardoverseError;
use crate::escrow::{Escrow, EscrowView};
use crate::identity::Identity;

verus! {

/// Why `caller` may not join the wager under `game_id`, if anything forbids
/// it.
///
/// A wager that is not kept has ended, or never began: either way it is
/// answered as already terminal. Otherwise the record decides, and last of
/// all whether `caller` can pay the stake.
pub open spec fn join_game_refusal(pre: EscrowView, caller: Identity, game_id: Seq<char>) -> Option<
    BoardoverseError,
> {
    if !pre.games.contains_key(game_id) {
        Some(BoardoverseError::AlreadyTerminal)
    } else if pre.games[game_id].join_refusal(caller) is Some {
        pre.games[game_id].join_refusal(caller)
    } else if pre.ledger.balances[caller] < pre.games[game_id].stake {
        Some(BoardoverseError::InsufficientFunds)
    } else {
        None
    }
}

/// The escrow after `caller` joined the wager under `game_id`: the record is
/// active with `caller` seated, and the stake has moved from `caller` into
/// custody.
pub open spec fn join_game_effect(
    pre: EscrowView,
    caller: Identity,
    game_id: Seq<char>,
) -> EscrowView {
    EscrowView {
        games: pre.games.insert(game_id, pre.games[game_id].joined(caller)),
        ledger: pre.ledger.deposited(caller, pre.games[game_id].stake as nat),
    }
}

/// Seats `caller` as the counterparty of the wager under `game_id`; `caller`
/// deposits the stake and the wager becomes active.
///
/// Either the wager is active and the stake is in custody, or the call is
/// refused and nothing has changed.
pub fn join_game(ctx: &mut Escrow, caller: Identity, game_id: String) -> (r: Result<
    (),
    BoardoverseError,
>)
    requires
        old(ctx).wf(),
    ensures
        final(ctx).wf(),
        match join_game_refusal(old(ctx)@, caller, game_id@) {
            Some(e) => r == Err::<(), BoardoverseError>(e) && final(ctx)@ == old(ctx)@,
            None => r is Ok && final(ctx)@ == join_game_effect(old(ctx)@, caller, game_id@),
        },
{
    let mut game = match ctx.store.get(&game_id) {
        Some(found) => found.clone(),
        None => {
            return Err(BoardoverseError::AlreadyTerminal);
        },
    };
    let stake = match game.join(caller) {
        Ok(stake) => stake,
        Err(e) => {
            return Err(e);
        },
    };
    match ctx.ledger.deposit(&caller, stake) {
        Ok(()) => {},
        Err(e) => {
            return Err(e);
        },
    }
    proof {
        ctx.store.lemma_keyed_by_id(game_id@);
    }
    ctx.store.put(game);
    Ok(())
}

} // verus!
