use vstd::prelude::*;
use crate::error::BoardoverseError;
use crate::escrow::EscrowView;
use crate::game::{Game, GameStatus};
use crate::identity::{Identity, IDENTITY_LEN};
use crate::instructions::create_game::{create_game_effect, create_game_refusal};
use crate::instructions::declare_winner::{declare_winner_effect, declare_winner_refusal};
use crate::instructions::join_game::{join_game_effect, join_game_refusal};
use crate::instructions::stop_game::{stop_game_effect, stop_game_refusal};

verus! {

/// The empty identity is zero in every byte, and no other identity is.
pub proof fn empty_identity_is_all_zero(who: Identity)
    ensures
        who == Identity::empty_spec() <==> forall|i: int|
            0 <= i < IDENTITY_LEN ==> who.key[i] == 0,
{
    if forall|i: int| 0 <= i < IDENTITY_LEN ==> who.key[i] == 0 {
        assert(who.key =~= Identity::empty_spec().key);
    }
}

/// Opening a wager records it as awaiting a counterparty with the stake as
/// its pot, adds the stake to custody, and takes it from the initiator and
/// from nobody else.
pub proof fn open_moves_stake_into_custody(
    pre: EscrowView,
    caller: Identity,
    game_id: String,
    bet_amount: u64,
    arbiter: Identity,
)
    requires
        pre.wf(),
        create_game_refusal(pre, caller, game_id@, bet_amount) is None,
    ensures
        ({
            let post = create_game_effect(pre, caller, game_id, bet_amount, arbiter);
            let game = post.games[game_id@];
            &&& post.games.contains_key(game_id@)
            &&& game.status == GameStatus::AwaitingCounterparty
            &&& game.pot == bet_amount
            &&& game.stake == bet_amount
            &&& game.initiator == caller
            &&& game.arbiter == arbiter
            &&& game.counterparty == Identity::empty_spec()
            &&& game.winner is None
            &&& post.ledger.custody == pre.ledger.custody + bet_amount
            &&& post.ledger.balances[caller] == pre.ledger.balances[caller] - bet_amount
            &&& forall|who: Identity|
                who != caller ==> post.ledger.balances[who] == pre.ledger.balances[who]
            &&& forall|id: Seq<char>|
                id != game_id@ ==> (post.games.contains_key(id) == pre.games.contains_key(id)
                    && post.games[id] == pre.games[id])
        }),
{
}

/// The initiator cannot join their own wager, whatever its stage.
pub proof fn join_by_initiator_is_self_play(game: Game)
    ensures
        game.join_refusal(game.initiator) == Some(BoardoverseError::SelfPlay),
{
}

/// In an escrow, the initiator of a wager that is kept cannot join it.
pub proof fn join_game_by_initiator_is_self_play(pre: EscrowView, game_id: Seq<char>)
    requires
        pre.games.contains_key(game_id),
    ensures
        join_game_refusal(pre, pre.games[game_id].initiator, game_id) == Some(
            BoardoverseError::SelfPlay,
        ),
{
}

/// Joining a wager that is past its first stage is refused: somebody other
/// than the initiator is told that an active wager is in the wrong state and
/// that an ended one is already terminal.
pub proof fn join_past_first_stage_is_refused(game: Game, caller: Identity)
    requires
        caller != game.initiator,
    ensures
        game.status == GameStatus::Active ==> game.join_refusal(caller) == Some(
            BoardoverseError::WrongState,
        ),
        game.status.is_terminal() ==> game.join_refusal(caller) == Some(
            BoardoverseError::AlreadyTerminal,
        ),
{
}

/// In an escrow, joining a wager that is past its first stage is refused:
/// somebody other than the initiator is told that an active wager is in the
/// wrong state, and anybody that a wager which is no longer kept is already
/// terminal.
pub proof fn join_game_past_first_stage_is_refused(
    pre: EscrowView,
    caller: Identity,
    game_id: Seq<char>,
)
    ensures
        !pre.games.contains_key(game_id) ==> join_game_refusal(pre, caller, game_id) == Some(
            BoardoverseError::AlreadyTerminal,
        ),
        pre.games.contains_key(game_id) && pre.games[game_id].status == GameStatus::Active
            && caller != pre.games[game_id].initiator ==> join_game_refusal(pre, caller, game_id)
            == Some(BoardoverseError::WrongState),
{
}

/// In an escrow, joining succeeds exactly on a wager that awaits its
/// counterparty, by somebody other than its initiator who owns the stake.
/// Every other attempt has one answer, which depends on nothing but the
/// first of these that fails: the wager is kept, the caller is not its
/// initiator, the wager is not yet active, the caller owns the stake.
pub proof fn join_game_answers(pre: EscrowView, caller: Identity, game_id: Seq<char>)
    requires
        pre.wf(),
    ensures
        join_game_refusal(pre, caller, game_id) == if !pre.games.contains_key(game_id) {
            Some(BoardoverseError::AlreadyTerminal)
        } else if caller == pre.games[game_id].initiator {
            Some(BoardoverseError::SelfPlay)
        } else if pre.games[game_id].status == GameStatus::Active {
            Some(BoardoverseError::WrongState)
        } else if pre.ledger.balances[caller] < pre.games[game_id].stake {
            Some(BoardoverseError::InsufficientFunds)
        } else {
            None::<BoardoverseError>
        },
{
    if pre.games.contains_key(game_id) {
        let game = pre.games[game_id];
        assert(game.wf() && !game.status.is_terminal() && game.pot <= pre.ledger.custody);
        assert(pre.ledger.balances[caller] + pre.ledger.custody <= pre.ledger.supply);
    }
}

/// Joining a wager makes it active with the caller seated, doubles its pot,
/// adds the stake to custody, and takes it from the caller and from nobody
/// else.
pub proof fn join_moves_stake_into_custody(pre: EscrowView, caller: Identity, game_id: Seq<char>)
    requires
        pre.wf(),
        join_game_refusal(pre, caller, game_id) is None,
    ensures
        ({
            let before = pre.games[game_id];
            let post = join_game_effect(pre, caller, game_id);
            let after = post.games[game_id];
            &&& before.status == GameStatus::AwaitingCounterparty
            &&& post.games.contains_key(game_id)
            &&& after.status == GameStatus::Active
            &&& after.counterparty == caller
            &&& after.pot == 2 * before.stake
            &&& after.id == before.id
            &&& after.initiator == before.initiator
            &&& after.arbiter == before.arbiter
            &&& after.stake == before.stake
            &&& after.winner is None
            &&& post.ledger.custody == pre.ledger.custody + before.stake
            &&& post.ledger.balances[caller] == pre.ledger.balances[caller] - before.stake
            &&& forall|who: Identity|
                who != caller ==> post.ledger.balances[who] == pre.ledger.balances[who]
        }),
{
    let before = pre.games[game_id];
    assert(before.wf() && !before.status.is_terminal());
}

/// Nobody but the arbiter can resolve a wager, whatever its stage and
/// whoever is named as winner.
pub proof fn resolve_by_stranger_is_unauthorized(game: Game, winner: Identity, caller: Identity)
    requires
        caller != game.arbiter,
    ensures
        game.resolve_refusal(winner, caller) == Some(BoardoverseError::Unauthorized),
{
}

/// In an escrow, nobody but the arbiter can resolve a wager that is kept.
pub proof fn declare_winner_by_stranger_is_unauthorized(
    pre: EscrowView,
    caller: Identity,
    winner: Identity,
    game_id: Seq<char>,
)
    requires
        pre.games.contains_key(game_id),
        caller != pre.games[game_id].arbiter,
    ensures
        declare_winner_refusal(pre, caller, winner, game_id) == Some(
            BoardoverseError::Unauthorized,
        ),
{
}

/// The arbiter cannot resolve an active wager in favour of somebody who
/// takes no part in it.
pub proof fn resolve_for_outsider_is_invalid_winner(game: Game, winner: Identity)
    requires
        game.status == GameStatus::Active,
        !game.is_participant(winner),
    ensures
        game.resolve_refusal(winner, game.arbiter) == Some(BoardoverseError::InvalidWinner),
{
}

/// In an escrow, the arbiter cannot resolve an active wager in favour of
/// somebody who takes no part in it.
pub proof fn declare_winner_for_outsider_is_invalid_winner(
    pre: EscrowView,
    winner: Identity,
    game_id: Seq<char>,
)
    requires
        pre.games.contains_key(game_id),
        pre.games[game_id].status == GameStatus::Active,
        !pre.games[game_id].is_participant(winner),
    ensures
        declare_winner_refusal(pre, pre.games[game_id].arbiter, winner, game_id) == Some(
            BoardoverseError::InvalidWinner,
        ),
{
}

/// In an escrow, resolving succeeds exactly when the arbiter names a
/// participant of an active wager.
pub proof fn declare_winner_answers(
    pre: EscrowView,
    caller: Identity,
    winner: Identity,
    game_id: Seq<char>,
)
    requires
        pre.wf(),
    ensures
        declare_winner_refusal(pre, caller, winner, game_id) == if !pre.games.contains_key(
            game_id,
        ) {
            Some(BoardoverseError::AlreadyTerminal)
        } else if caller != pre.games[game_id].arbiter {
            Some(BoardoverseError::Unauthorized)
        } else if pre.games[game_id].status == GameStatus::AwaitingCounterparty {
            Some(BoardoverseError::WrongState)
        } else if !pre.games[game_id].is_participant(winner) {
            Some(BoardoverseError::InvalidWinner)
        } else {
            None::<BoardoverseError>
        },
{
    if pre.games.contains_key(game_id) {
        assert(!pre.games[game_id].status.is_terminal());
    }
}

/// Resolving a wager leaves its record resolved with the winner named and
/// nothing in its pot.
pub proof fn resolve_empties_the_pot(game: Game, winner: Identity, caller: Identity)
    requires
        game.wf(),
        game.resolve_refusal(winner, caller) is None,
    ensures
        game.status == GameStatus::Active,
        game.pot == 2 * game.stake,
        game.resolved(winner).pot == 0,
        game.resolved(winner).status == GameStatus::Resolved,
        game.resolved(winner).winner == Some(winner),
        game.resolved(winner).wf(),
{
}

/// Resolving a wager pays the winner twice the stake, which is the whole pot,
/// out of custody; nobody else's balance changes, and the record is gone.
pub proof fn declare_winner_pays_twice_the_stake(
    pre: EscrowView,
    caller: Identity,
    winner: Identity,
    game_id: Seq<char>,
)
    requires
        pre.wf(),
        declare_winner_refusal(pre, caller, winner, game_id) is None,
    ensures
        ({
            let game = pre.games[game_id];
            let post = declare_winner_effect(pre, winner, game_id);
            &&& !post.games.contains_key(game_id)
            &&& post.ledger.balances[winner] == pre.ledger.balances[winner] + 2 * game.stake
            &&& post.ledger.custody == pre.ledger.custody - 2 * game.stake
            &&& post.ledger.supply == pre.ledger.supply
            &&& forall|who: Identity|
                who != winner ==> post.ledger.balances[who] == pre.ledger.balances[who]
            &&& forall|id: Seq<char>|
                id != game_id ==> (post.games.contains_key(id) == pre.games.contains_key(id)
                    && post.games[id] == pre.games[id])
        }),
{
    let game = pre.games[game_id];
    assert(game.wf() && game.pot <= pre.ledger.custody);
}

/// In an escrow, cancelling succeeds exactly when the arbiter asks for it on
/// a wager that is kept.
pub proof fn stop_game_answers(pre: EscrowView, caller: Identity, game_id: Seq<char>)
    requires
        pre.wf(),
    ensures
        stop_game_refusal(pre, caller, game_id) == if !pre.games.contains_key(game_id) {
            Some(BoardoverseError::AlreadyTerminal)
        } else if caller != pre.games[game_id].arbiter {
            Some(BoardoverseError::Unauthorized)
        } else {
            None::<BoardoverseError>
        },
{
    if pre.games.contains_key(game_id) {
        assert(!pre.games[game_id].status.is_terminal());
    }
}

/// Cancelling a wager that nobody joined gives the stake back to the
/// initiator and changes no other balance; the record is gone.
pub proof fn stop_game_before_join_refunds_initiator_only(
    pre: EscrowView,
    caller: Identity,
    game_id: Seq<char>,
)
    requires
        pre.wf(),
        stop_game_refusal(pre, caller, game_id) is None,
        pre.games[game_id].status == GameStatus::AwaitingCounterparty,
    ensures
        ({
            let game = pre.games[game_id];
            let post = stop_game_effect(pre, game_id);
            &&& !post.games.contains_key(game_id)
            &&& post.ledger.balances[game.initiator] == pre.ledger.balances[game.initiator]
                + game.stake
            &&& post.ledger.custody == pre.ledger.custody - game.stake
            &&& game.pot == game.stake
            &&& forall|who: Identity|
                who != game.initiator ==> post.ledger.balances[who] == pre.ledger.balances[who]
        }),
{
    let game = pre.games[game_id];
    assert(game.wf() && game.pot <= pre.ledger.custody);
}

/// Cancelling an active wager gives the stake back to each of the two
/// participants, which together is the whole pot, and changes no other
/// balance; the record is gone.
pub proof fn stop_game_after_join_refunds_both(
    pre: EscrowView,
    caller: Identity,
    game_id: Seq<char>,
)
    requires
        pre.wf(),
        stop_game_refusal(pre, caller, game_id) is None,
        pre.games[game_id].status == GameStatus::Active,
    ensures
        ({
            let game = pre.games[game_id];
            let post = stop_game_effect(pre, game_id);
            &&& !post.games.contains_key(game_id)
            &&& game.initiator != game.counterparty
            &&& post.ledger.balances[game.initiator] == pre.ledger.balances[game.initiator]
                + game.stake
            &&& post.ledger.balances[game.counterparty] == pre.ledger.balances[game.counterparty]
                + game.stake
            &&& game.refund().to_initiator + game.refund().to_counterparty == game.pot
            &&& post.ledger.custody == pre.ledger.custody - game.pot
            &&& forall|who: Identity|
                who != game.initiator && who != game.counterparty ==> post.ledger.balances[who]
                    == pre.ledger.balances[who]
        }),
{
    let game = pre.games[game_id];
    assert(game.wf() && game.pot <= pre.ledger.custody);
}

/// Whatever a cancelled wager refunds is exactly what was in its pot.
pub proof fn cancel_refunds_the_pot(game: Game, caller: Identity)
    requires
        game.wf(),
        game.cancel_refusal(caller) is None,
    ensures
        game.refund().to_initiator + game.refund().to_counterparty == game.pot,
        game.status == GameStatus::AwaitingCounterparty ==> game.refund().to_counterparty == 0,
        game.cancelled().pot == 0,
        game.cancelled().status == GameStatus::Cancelled,
        game.cancelled().wf(),
{
}

/// A record that has been resolved or cancelled accepts nothing more from its
/// arbiter: resolving and cancelling are both answered as already terminal.
pub proof fn ended_record_cannot_end_again(game: Game, winner: Identity)
    requires
        game.status.is_terminal(),
    ensures
        game.resolve_refusal(winner, game.arbiter) == Some(BoardoverseError::AlreadyTerminal),
        game.cancel_refusal(game.arbiter) == Some(BoardoverseError::AlreadyTerminal),
{
}

/// Once a wager has been resolved, resolving or cancelling it again is
/// answered as already terminal, whoever asks and whoever is named.
pub proof fn resolved_wager_cannot_end_again(
    pre: EscrowView,
    winner: Identity,
    game_id: Seq<char>,
    second_caller: Identity,
    second_winner: Identity,
)
    ensures
        ({
            let post = declare_winner_effect(pre, winner, game_id);
            &&& declare_winner_refusal(post, second_caller, second_winner, game_id) == Some(
                BoardoverseError::AlreadyTerminal,
            )
            &&& stop_game_refusal(post, second_caller, game_id) == Some(
                BoardoverseError::AlreadyTerminal,
            )
            &&& join_game_refusal(post, second_caller, game_id) == Some(
                BoardoverseError::AlreadyTerminal,
            )
        }),
{
}

/// Once a wager has been cancelled, resolving or cancelling it again is
/// answered as already terminal, whoever asks and whoever is named.
pub proof fn cancelled_wager_cannot_end_again(
    pre: EscrowView,
    game_id: Seq<char>,
    second_caller: Identity,
    second_winner: Identity,
)
    ensures
        ({
            let post = stop_game_effect(pre, game_id);
            &&& declare_winner_refusal(post, second_caller, second_winner, game_id) == Some(
                BoardoverseError::AlreadyTerminal,
            )
            &&& stop_game_refusal(post, second_caller, game_id) == Some(
                BoardoverseError::AlreadyTerminal,
            )
            &&& join_game_refusal(post, second_caller, game_id) == Some(
                BoardoverseError::AlreadyTerminal,
            )
        }),
{
}

/// A wager only moves forward: joining takes it from awaiting to active,
/// resolving from active to resolved, cancelling from awaiting or active to
/// cancelled. Who takes part, who decides and what is at stake never change,
/// and a seat once taken stays taken by the same identity.
pub proof fn status_only_moves_forward(game: Game, caller: Identity, winner: Identity)
    ensures
        game.join_refusal(caller) is None ==> game.status == GameStatus::AwaitingCounterparty
            && game.joined(caller).status == GameStatus::Active,
        game.resolve_refusal(winner, caller) is None ==> game.status == GameStatus::Active
            && game.resolved(winner).status == GameStatus::Resolved && game.resolved(
            winner,
        ).counterparty == game.counterparty,
        game.cancel_refusal(caller) is None ==> !game.status.is_terminal()
            && game.cancelled().status == GameStatus::Cancelled && game.cancelled().counterparty
            == game.counterparty,
{
}

} // verus!
