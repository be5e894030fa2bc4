use vstd::prelude::*;
use crate::error::BoardoverseError;
use crate::escrow::{Escrow, EscrowView};
use crate::game::{id_len, Game, MAX_ID_LEN};
use crate::identity::Identity;

verus! {

/// Why `caller` may not open a wager under `game_id` with `bet_amount` at
/// stake, if anything forbids it.
///
/// The amount is tested first, then whether an open wager already has the
/// identifier, then whether `caller` can pay.
pub open spec fn create_game_refusal(
    pre: EscrowView,
    caller: Identity,
    game_id: Seq<char>,
    bet_amount: u64,
) -> Option<BoardoverseError> {
    if bet_amount == 0 {
        Some(BoardoverseError::InvalidAmount)
    } else if pre.games.contains_key(game_id) {
        Some(BoardoverseError::WrongState)
    } else if pre.ledger.balances[caller] < bet_amount {
        Some(BoardoverseError::InsufficientFunds)
    } else {
        None
    }
}

/// The escrow after `caller` has opened a wager: the new record is kept, and
/// the stake has moved from `caller` into custody.
pub open spec fn create_game_effect(
    pre: EscrowView,
    caller: Identity,
    game_id: String,
    bet_amount: u64,
    arbiter: Identity,
) -> EscrowView {
    EscrowView {
        games: pre.games.insert(game_id@, Game::opened(game_id, bet_amount, arbiter, caller)),
        ledger: pre.ledger.deposited(caller, bet_amount as nat),
    }
}

/// Opens a wager under `game_id`: `caller` deposits `bet_amount` and waits
/// for a counterparty; `arbiter` will decide the wager.
///
/// Either the wager is recorded and the stake is in custody, or the call is
/// refused and nothing has changed.
pub fn create_game(
    ctx: &mut Escrow,
    caller: Identity,
    game_id: String,
    bet_amount: u64,
    arbiter: Identity,
) -> (r: Result<(), BoardoverseError>)
    requires
        old(ctx).wf(),
        id_len(game_id@) <= MAX_ID_LEN,
    ensures
        final(ctx).wf(),
        match create_game_refusal(old(ctx)@, caller, game_id@, bet_amount) {
            Some(e) => r == Err::<(), BoardoverseError>(e) && final(ctx)@ == old(ctx)@,
            None => r is Ok && final(ctx)@ == create_game_effect(
                old(ctx)@,
                caller,
                game_id,
                bet_amount,
                arbiter,
            ),
        },
{
    let game = match Game::open(game_id, bet_amount, arbiter, caller) {
        Ok(game) => game,
        Err(e) => {
            return Err(e);
        },
    };
    if ctx.store.get(&game.id).is_some() {
        return Err(BoardoverseError::WrongState);
    }
    match ctx.ledger.deposit(&caller, bet_amount) {
        Ok(()) => {},
        Err(e) => {
            return Err(e);
        },
    }
    ctx.store.put(game);
    Ok(())
}

} // verus!
