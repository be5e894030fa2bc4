use boardo_contract::{
    create_game, declare_winner, join_game, stop_game, BoardoverseError, Escrow, GameStatus,
    Identity,
};

fn who(tag: u8) -> Identity {
    Identity::new([tag; 32])
}

fn alice() -> Identity {
    who(1)
}

fn bob() -> Identity {
    who(2)
}

fn arbiter() -> Identity {
    who(9)
}

fn funded() -> Escrow {
    let mut ctx = Escrow::new();
    assert_eq!(ctx.fund(&alice(), 1_000), Ok(()));
    assert_eq!(ctx.fund(&bob(), 1_000), Ok(()));
    ctx
}

fn id(s: &str) -> String {
    s.to_string()
}

#[test]
fn scenario_open_join_resolve() {
    let mut ctx = funded();
    assert_eq!(create_game(&mut ctx, alice(), id("g1"), 100, arbiter()), Ok(()));
    assert_eq!(join_game(&mut ctx, bob(), id("g1")), Ok(()));
    assert_eq!(declare_winner(&mut ctx, arbiter(), bob(), id("g1")), Ok(()));
    assert_eq!(ctx.balance(&bob()), 1_100);
    assert_eq!(ctx.balance(&alice()), 900);
    assert_eq!(ctx.custody(), 0);
    assert!(ctx.game(&id("g1")).is_none());
}

#[test]
fn scenario_open_cancel_without_join() {
    let mut ctx = funded();
    assert_eq!(create_game(&mut ctx, alice(), id("g1"), 50, arbiter()), Ok(()));
    assert_eq!(ctx.balance(&alice()), 950);
    assert_eq!(stop_game(&mut ctx, arbiter(), id("g1")), Ok(()));
    assert_eq!(ctx.balance(&alice()), 1_000);
    assert_eq!(ctx.balance(&bob()), 1_000);
    assert_eq!(ctx.balance(&Identity::empty()), 0);
    assert_eq!(ctx.custody(), 0);
    assert!(ctx.game(&id("g1")).is_none());
}

#[test]
fn open_records_wager_and_moves_stake() {
    let mut ctx = funded();
    assert_eq!(create_game(&mut ctx, alice(), id("g1"), 100, arbiter()), Ok(()));
    let game = ctx.game(&id("g1")).expect("the wager is kept").clone();
    assert_eq!(game.id, "g1");
    assert_eq!(game.initiator, alice());
    assert_eq!(game.counterparty, Identity::empty());
    assert_eq!(game.arbiter, arbiter());
    assert_eq!(game.stake, 100);
    assert_eq!(game.pot, 100);
    assert_eq!(game.status, GameStatus::AwaitingCounterparty);
    assert_eq!(game.winner, None);
    assert_eq!(ctx.custody(), 100);
    assert_eq!(ctx.balance(&alice()), 900);
    assert_eq!(ctx.balance(&bob()), 1_000);
}

#[test]
fn open_with_zero_stake_is_invalid_amount() {
    let mut ctx = funded();
    assert_eq!(
        create_game(&mut ctx, alice(), id("g1"), 0, arbiter()),
        Err(BoardoverseError::InvalidAmount)
    );
    assert!(ctx.game(&id("g1")).is_none());
    assert_eq!(ctx.balance(&alice()), 1_000);
    assert_eq!(ctx.custody(), 0);
}

#[test]
fn open_beyond_balance_is_insufficient_funds() {
    let mut ctx = funded();
    assert_eq!(
        create_game(&mut ctx, alice(), id("g1"), 1_001, arbiter()),
        Err(BoardoverseError::InsufficientFunds)
    );
    assert!(ctx.game(&id("g1")).is_none());
    assert_eq!(ctx.balance(&alice()), 1_000);
    assert_eq!(ctx.custody(), 0);
}

#[test]
fn open_with_whole_balance_succeeds() {
    let mut ctx = funded();
    assert_eq!(create_game(&mut ctx, alice(), id("g1"), 1_000, arbiter()), Ok(()));
    assert_eq!(ctx.balance(&alice()), 0);
    assert_eq!(ctx.custody(), 1_000);
}

#[test]
fn open_by_stranger_to_the_books_is_insufficient_funds() {
    let mut ctx = funded();
    assert_eq!(
        create_game(&mut ctx, who(7), id("g1"), 1, arbiter()),
        Err(BoardoverseError::InsufficientFunds)
    );
    assert_eq!(ctx.custody(), 0);
}

#[test]
fn open_under_identifier_in_use_is_wrong_state() {
    let mut ctx = funded();
    assert_eq!(create_game(&mut ctx, alice(), id("g1"), 100, arbiter()), Ok(()));
    assert_eq!(
        create_game(&mut ctx, bob(), id("g1"), 30, arbiter()),
        Err(BoardoverseError::WrongState)
    );
    let game = ctx.game(&id("g1")).expect("the first wager is kept").clone();
    assert_eq!(game.initiator, alice());
    assert_eq!(game.stake, 100);
    assert_eq!(ctx.balance(&bob()), 1_000);
    assert_eq!(ctx.custody(), 100);
}

#[test]
fn zero_stake_is_reported_before_identifier_in_use() {
    let mut ctx = funded();
    assert_eq!(create_game(&mut ctx, alice(), id("g1"), 100, arbiter()), Ok(()));
    assert_eq!(
        create_game(&mut ctx, bob(), id("g1"), 0, arbiter()),
        Err(BoardoverseError::InvalidAmount)
    );
}

#[test]
fn identifier_is_free_again_once_wager_ended() {
    let mut ctx = funded();
    assert_eq!(create_game(&mut ctx, alice(), id("g1"), 100, arbiter()), Ok(()));
    assert_eq!(stop_game(&mut ctx, arbiter(), id("g1")), Ok(()));
    assert_eq!(create_game(&mut ctx, bob(), id("g1"), 70, who(8)), Ok(()));
    let game = ctx.game(&id("g1")).expect("the new wager is kept").clone();
    assert_eq!(game.initiator, bob());
    assert_eq!(game.arbiter, who(8));
    assert_eq!(game.pot, 70);
}

#[test]
fn identifier_of_thirty_two_bytes_is_accepted() {
    let mut ctx = funded();
    let long = "abcdefghijklmnopqrstuvwxyz012345";
    assert_eq!(long.len(), 32);
    assert_eq!(create_game(&mut ctx, alice(), id(long), 5, arbiter()), Ok(()));
    assert_eq!(ctx.game(&id(long)).map(|g| g.pot), Some(5));
}

#[test]
fn join_seats_caller_and_doubles_pot() {
    let mut ctx = funded();
    assert_eq!(create_game(&mut ctx, alice(), id("g1"), 100, arbiter()), Ok(()));
    assert_eq!(join_game(&mut ctx, bob(), id("g1")), Ok(()));
    let game = ctx.game(&id("g1")).expect("the wager is kept").clone();
    assert_eq!(game.counterparty, bob());
    assert_eq!(game.initiator, alice());
    assert_eq!(game.status, GameStatus::Active);
    assert_eq!(game.pot, 200);
    assert_eq!(game.stake, 100);
    assert_eq!(game.winner, None);
    assert_eq!(ctx.custody(), 200);
    assert_eq!(ctx.balance(&bob()), 900);
    assert_eq!(ctx.balance(&alice()), 900);
}

#[test]
fn join_by_initiator_is_self_play_at_every_stage() {
    let mut ctx = funded();
    assert_eq!(create_game(&mut ctx, alice(), id("g1"), 100, arbiter()), Ok(()));
    assert_eq!(join_game(&mut ctx, alice(), id("g1")), Err(BoardoverseError::SelfPlay));
    assert_eq!(ctx.balance(&alice()), 900);
    assert_eq!(join_game(&mut ctx, bob(), id("g1")), Ok(()));
    assert_eq!(join_game(&mut ctx, alice(), id("g1")), Err(BoardoverseError::SelfPlay));
    assert_eq!(ctx.balance(&alice()), 900);
    assert_eq!(ctx.custody(), 200);
}

#[test]
fn join_on_active_wager_is_wrong_state() {
    let mut ctx = funded();
    assert_eq!(ctx.fund(&who(3), 400), Ok(()));
    assert_eq!(create_game(&mut ctx, alice(), id("g1"), 100, arbiter()), Ok(()));
    assert_eq!(join_game(&mut ctx, bob(), id("g1")), Ok(()));
    assert_eq!(join_game(&mut ctx, who(3), id("g1")), Err(BoardoverseError::WrongState));
    assert_eq!(join_game(&mut ctx, bob(), id("g1")), Err(BoardoverseError::WrongState));
    assert_eq!(ctx.balance(&who(3)), 400);
    assert_eq!(ctx.balance(&bob()), 900);
    assert_eq!(ctx.balance(&alice()), 900);
    assert_eq!(ctx.custody(), 200);
    assert_eq!(ctx.game(&id("g1")).map(|g| g.counterparty), Some(bob()));
}

#[test]
fn join_on_ended_wager_is_already_terminal() {
    let mut ctx = funded();
    assert_eq!(create_game(&mut ctx, alice(), id("g1"), 100, arbiter()), Ok(()));
    assert_eq!(stop_game(&mut ctx, arbiter(), id("g1")), Ok(()));
    assert_eq!(join_game(&mut ctx, bob(), id("g1")), Err(BoardoverseError::AlreadyTerminal));
    assert_eq!(ctx.balance(&bob()), 1_000);
    assert_eq!(ctx.balance(&alice()), 1_000);
    assert_eq!(ctx.custody(), 0);
}

#[test]
fn join_beyond_balance_is_insufficient_funds() {
    let mut ctx = funded();
    assert_eq!(ctx.fund(&who(3), 99), Ok(()));
    assert_eq!(create_game(&mut ctx, alice(), id("g1"), 100, arbiter()), Ok(()));
    assert_eq!(join_game(&mut ctx, who(3), id("g1")), Err(BoardoverseError::InsufficientFunds));
    let game = ctx.game(&id("g1")).expect("the wager is kept").clone();
    assert_eq!(game.status, GameStatus::AwaitingCounterparty);
    assert_eq!(game.counterparty, Identity::empty());
    assert_eq!(game.pot, 100);
    assert_eq!(ctx.balance(&who(3)), 99);
    assert_eq!(ctx.custody(), 100);
}

#[test]
fn resolve_by_non_arbiter_is_unauthorized() {
    let mut ctx = funded();
    assert_eq!(create_game(&mut ctx, alice(), id("g1"), 100, arbiter()), Ok(()));
    assert_eq!(
        declare_winner(&mut ctx, alice(), alice(), id("g1")),
        Err(BoardoverseError::Unauthorized)
    );
    assert_eq!(join_game(&mut ctx, bob(), id("g1")), Ok(()));
    assert_eq!(
        declare_winner(&mut ctx, bob(), bob(), id("g1")),
        Err(BoardoverseError::Unauthorized)
    );
    assert_eq!(
        declare_winner(&mut ctx, who(5), who(6), id("g1")),
        Err(BoardoverseError::Unauthorized)
    );
    let game = ctx.game(&id("g1")).expect("the wager is kept").clone();
    assert_eq!(game.pot, 200);
    assert_eq!(game.status, GameStatus::Active);
    assert_eq!(game.winner, None);
    assert_eq!(ctx.custody(), 200);
    assert_eq!(ctx.balance(&bob()), 900);
}

#[test]
fn resolve_before_join_is_wrong_state() {
    let mut ctx = funded();
    assert_eq!(create_game(&mut ctx, alice(), id("g1"), 100, arbiter()), Ok(()));
    assert_eq!(
        declare_winner(&mut ctx, arbiter(), alice(), id("g1")),
        Err(BoardoverseError::WrongState)
    );
    assert_eq!(
        declare_winner(&mut ctx, arbiter(), Identity::empty(), id("g1")),
        Err(BoardoverseError::WrongState)
    );
    assert_eq!(ctx.game(&id("g1")).map(|g| g.pot), Some(100));
    assert_eq!(ctx.balance(&alice()), 900);
}

#[test]
fn resolve_for_non_participant_is_invalid_winner() {
    let mut ctx = funded();
    assert_eq!(create_game(&mut ctx, alice(), id("g1"), 100, arbiter()), Ok(()));
    assert_eq!(join_game(&mut ctx, bob(), id("g1")), Ok(()));
    assert_eq!(
        declare_winner(&mut ctx, arbiter(), arbiter(), id("g1")),
        Err(BoardoverseError::InvalidWinner)
    );
    assert_eq!(
        declare_winner(&mut ctx, arbiter(), Identity::empty(), id("g1")),
        Err(BoardoverseError::InvalidWinner)
    );
    let game = ctx.game(&id("g1")).expect("the wager is kept").clone();
    assert_eq!(game.pot, 200);
    assert_eq!(game.status, GameStatus::Active);
    assert_eq!(ctx.balance(&arbiter()), 0);
    assert_eq!(ctx.custody(), 200);
}

#[test]
fn resolve_in_favour_of_initiator_pays_initiator() {
    let mut ctx = funded();
    assert_eq!(create_game(&mut ctx, alice(), id("g1"), 250, arbiter()), Ok(()));
    assert_eq!(join_game(&mut ctx, bob(), id("g1")), Ok(()));
    assert_eq!(declare_winner(&mut ctx, arbiter(), alice(), id("g1")), Ok(()));
    assert_eq!(ctx.balance(&alice()), 1_250);
    assert_eq!(ctx.balance(&bob()), 750);
    assert_eq!(ctx.balance(&arbiter()), 0);
    assert_eq!(ctx.custody(), 0);
    assert!(ctx.game(&id("g1")).is_none());
}

#[test]
fn arbiter_who_takes_part_may_name_themselves() {
    let mut ctx = funded();
    assert_eq!(create_game(&mut ctx, alice(), id("g1"), 10, bob()), Ok(()));
    assert_eq!(join_game(&mut ctx, bob(), id("g1")), Ok(()));
    assert_eq!(declare_winner(&mut ctx, bob(), bob(), id("g1")), Ok(()));
    assert_eq!(ctx.balance(&bob()), 1_010);
}

#[test]
fn cancel_active_wager_refunds_both() {
    let mut ctx = funded();
    assert_eq!(create_game(&mut ctx, alice(), id("g1"), 100, arbiter()), Ok(()));
    assert_eq!(join_game(&mut ctx, bob(), id("g1")), Ok(()));
    assert_eq!(ctx.custody(), 200);
    assert_eq!(stop_game(&mut ctx, arbiter(), id("g1")), Ok(()));
    assert_eq!(ctx.balance(&alice()), 1_000);
    assert_eq!(ctx.balance(&bob()), 1_000);
    assert_eq!(ctx.balance(&arbiter()), 0);
    assert_eq!(ctx.custody(), 0);
    assert!(ctx.game(&id("g1")).is_none());
}

#[test]
fn cancel_by_non_arbiter_is_unauthorized() {
    let mut ctx = funded();
    assert_eq!(create_game(&mut ctx, alice(), id("g1"), 100, arbiter()), Ok(()));
    assert_eq!(stop_game(&mut ctx, alice(), id("g1")), Err(BoardoverseError::Unauthorized));
    assert_eq!(join_game(&mut ctx, bob(), id("g1")), Ok(()));
    assert_eq!(stop_game(&mut ctx, bob(), id("g1")), Err(BoardoverseError::Unauthorized));
    assert_eq!(ctx.game(&id("g1")).map(|g| g.status), Some(GameStatus::Active));
    assert_eq!(ctx.custody(), 200);
    assert_eq!(ctx.balance(&alice()), 900);
    assert_eq!(ctx.balance(&bob()), 900);
}

#[test]
fn ending_a_wager_twice_is_already_terminal() {
    let mut ctx = funded();
    assert_eq!(create_game(&mut ctx, alice(), id("g1"), 100, arbiter()), Ok(()));
    assert_eq!(join_game(&mut ctx, bob(), id("g1")), Ok(()));
    assert_eq!(declare_winner(&mut ctx, arbiter(), bob(), id("g1")), Ok(()));
    assert_eq!(
        declare_winner(&mut ctx, arbiter(), bob(), id("g1")),
        Err(BoardoverseError::AlreadyTerminal)
    );
    assert_eq!(
        declare_winner(&mut ctx, arbiter(), alice(), id("g1")),
        Err(BoardoverseError::AlreadyTerminal)
    );
    assert_eq!(stop_game(&mut ctx, arbiter(), id("g1")), Err(BoardoverseError::AlreadyTerminal));
    assert_eq!(ctx.balance(&bob()), 1_100);
    assert_eq!(ctx.balance(&alice()), 900);
    assert_eq!(ctx.custody(), 0);

    assert_eq!(create_game(&mut ctx, alice(), id("g2"), 40, arbiter()), Ok(()));
    assert_eq!(stop_game(&mut ctx, arbiter(), id("g2")), Ok(()));
    assert_eq!(stop_game(&mut ctx, arbiter(), id("g2")), Err(BoardoverseError::AlreadyTerminal));
    assert_eq!(
        declare_winner(&mut ctx, arbiter(), alice(), id("g2")),
        Err(BoardoverseError::AlreadyTerminal)
    );
    assert_eq!(ctx.balance(&alice()), 900);
    assert_eq!(ctx.custody(), 0);
}

#[test]
fn wager_that_never_was_is_already_terminal() {
    let mut ctx = funded();
    assert_eq!(join_game(&mut ctx, bob(), id("nope")), Err(BoardoverseError::AlreadyTerminal));
    assert_eq!(
        declare_winner(&mut ctx, arbiter(), bob(), id("nope")),
        Err(BoardoverseError::AlreadyTerminal)
    );
    assert_eq!(stop_game(&mut ctx, arbiter(), id("nope")), Err(BoardoverseError::AlreadyTerminal));
    assert_eq!(ctx.custody(), 0);
}

#[test]
fn wagers_under_different_identifiers_are_independent() {
    let mut ctx = funded();
    assert_eq!(create_game(&mut ctx, alice(), id("g1"), 100, arbiter()), Ok(()));
    assert_eq!(create_game(&mut ctx, bob(), id("g2"), 300, who(8)), Ok(()));
    assert_eq!(ctx.custody(), 400);
    assert_eq!(join_game(&mut ctx, alice(), id("g2")), Ok(()));
    assert_eq!(ctx.custody(), 700);
    assert_eq!(stop_game(&mut ctx, who(8), id("g1")), Err(BoardoverseError::Unauthorized));
    assert_eq!(stop_game(&mut ctx, arbiter(), id("g1")), Ok(()));
    assert_eq!(ctx.custody(), 600);
    assert_eq!(ctx.game(&id("g2")).map(|g| g.pot), Some(600));
    assert_eq!(declare_winner(&mut ctx, who(8), alice(), id("g2")), Ok(()));
    assert_eq!(ctx.balance(&alice()), 1_300);
    assert_eq!(ctx.balance(&bob()), 700);
    assert_eq!(ctx.custody(), 0);
}

#[test]
fn funding_beyond_the_widest_amount_is_refused() {
    let mut ctx = Escrow::new();
    assert_eq!(ctx.fund(&alice(), u64::MAX - 1), Ok(()));
    assert_eq!(ctx.fund(&bob(), 2), Err(BoardoverseError::InsufficientFunds));
    assert_eq!(ctx.balance(&bob()), 0);
    assert_eq!(ctx.fund(&bob(), 1), Ok(()));
    assert_eq!(ctx.balance(&bob()), 1);
    assert_eq!(ctx.balance(&alice()), u64::MAX - 1);
}

#[test]
fn largest_stake_round_trip() {
    let mut ctx = Escrow::new();
    let half = u64::MAX / 2;
    assert_eq!(ctx.fund(&alice(), half), Ok(()));
    assert_eq!(ctx.fund(&bob(), half), Ok(()));
    assert_eq!(create_game(&mut ctx, alice(), id("big"), half, arbiter()), Ok(()));
    assert_eq!(join_game(&mut ctx, bob(), id("big")), Ok(()));
    assert_eq!(ctx.custody(), u64::MAX - 1);
    assert_eq!(ctx.game(&id("big")).map(|g| g.pot), Some(u64::MAX - 1));
    assert_eq!(declare_winner(&mut ctx, arbiter(), alice(), id("big")), Ok(()));
    assert_eq!(ctx.balance(&alice()), u64::MAX - 1);
    assert_eq!(ctx.balance(&bob()), 0);
}

#[test]
fn new_escrow_is_empty() {
    let ctx = Escrow::new();
    assert_eq!(ctx.custody(), 0);
    assert_eq!(ctx.balance(&alice()), 0);
    assert!(ctx.game(&id("g1")).is_none());
}
