use vstd::prelude::*;
use crate::error::BoardoverseError;
use crate::identity::Identity;

verus! {

/// Longest wager identifier, in bytes.
pub const MAX_ID_LEN: usize = 32;

/// Number of bytes that the identifier `id` takes, as the machine counts
/// them.
pub open spec fn id_len(id: Seq<char>) -> usize {
    vstd::utf8::encode_utf8(id).len() as usize
}

/// Whether `id` is short enough to name a wager.
pub fn is_valid_id(id: &String) -> (ok: bool)
    ensures
        ok == (id_len(id@) <= MAX_ID_LEN),
{
    id.as_str().len() <= MAX_ID_LEN
}

/// Stage of a wager's life.
///
/// A wager starts as `AwaitingCounterparty`, may become `Active`, and ends as
/// `Resolved` or `Cancelled`. Nothing leaves the last two.
#[derive(Clone, Copy, Debug, PartialEq, Eq, Structural)]
pub enum GameStatus {
    /// The initiator has deposited; the second seat is free.
    AwaitingCounterparty,
    /// Both participants have deposited.
    Active,
    /// The arbiter named a winner, who was paid the pot.
    Resolved,
    /// The arbiter called the wager off and the deposits went back.
    Cancelled,
}

impl GameStatus {
    /// Whether this stage is `Resolved` or `Cancelled`.
    pub open spec fn is_terminal_spec(&self) -> bool {
        *self == GameStatus::Resolved || *self == GameStatus::Cancelled
    }

    /// Whether no further transition is possible from this stage.
    #[verifier::when_used_as_spec(is_terminal_spec)]
    pub fn is_terminal(&self) -> (r: bool)
        ensures
            r == self.is_terminal_spec(),
    {
        match self {
            GameStatus::AwaitingCounterparty => false,
            GameStatus::Active => false,
            GameStatus::Resolved => true,
            GameStatus::Cancelled => true,
        }
    }
}

/// What goes back to each participant when a wager is cancelled.
#[derive(Clone, Copy, Debug, PartialEq, Eq, Structural)]
pub struct Refund {
    pub to_initiator: u64,
    pub to_counterparty: u64,
}

/// One wager: who takes part, who decides, and what escrow holds for it.
#[derive(Debug, PartialEq, Eq)]
pub struct Game {
    /// Caller-chosen identifier; never changes.
    pub id: String,
    /// Who opened the wager.
    pub initiator: Identity,
    /// Who joined it; the empty identity until somebody has.
    pub counterparty: Identity,
    /// Who alone may resolve or cancel it.
    pub arbiter: Identity,
    /// What each participant deposits.
    pub stake: u64,
    /// What escrow currently holds for this wager.
    pub pot: u64,
    pub status: GameStatus,
    /// Set exactly when the wager is resolved.
    pub winner: Option<Identity>,
}

impl Clone for Game {
    fn clone(&self) -> (copy: Game)
        ensures
            copy == *self,
    {
        Game {
            id: self.id.clone(),
            initiator: self.initiator,
            counterparty: self.counterparty,
            arbiter: self.arbiter,
            stake: self.stake,
            pot: self.pot,
            status: self.status,
            winner: self.winner,
        }
    }
}

impl Game {
    /// The invariant of a wager record.
    ///
    /// The pot is what was deposited and not yet paid out, the second seat is
    /// empty until the wager is active and is never the initiator's, and a
    /// winner is recorded exactly for a resolved wager and is a participant.
    pub open spec fn wf(self) -> bool {
        &&& id_len(self.id@) <= MAX_ID_LEN
        &&& self.stake > 0
        &&& match self.status {
            GameStatus::AwaitingCounterparty => {
                &&& self.counterparty == Identity::empty_spec()
                &&& self.pot == self.stake
                &&& self.winner is None
            },
            GameStatus::Active => {
                &&& self.counterparty != self.initiator
                &&& self.pot == 2 * self.stake
                &&& self.winner is None
            },
            GameStatus::Resolved => {
                &&& self.counterparty != self.initiator
                &&& self.pot == 0
                &&& self.winner is Some
                &&& self.is_participant(self.winner->0)
            },
            GameStatus::Cancelled => {
                &&& self.counterparty == Identity::empty_spec() || self.counterparty
                    != self.initiator
                &&& self.pot == 0
                &&& self.winner is None
            },
        }
    }

    /// Whether `who` is one of the two participants.
    pub open spec fn is_participant(self, who: Identity) -> bool {
        who == self.initiator || who == self.counterparty
    }

    /// The record of a wager that `caller` has just opened.
    pub open spec fn opened(id: String, stake: u64, arbiter: Identity, caller: Identity) -> Game {
        Game {
            id,
            initiator: caller,
            counterparty: Identity::empty_spec(),
            arbiter,
            stake,
            pot: stake,
            status: GameStatus::AwaitingCounterparty,
            winner: None,
        }
    }

    /// Why `caller` may not join this wager, if anything forbids it.
    ///
    /// Playing against oneself is refused first, whatever the stage.
    pub open spec fn join_refusal(self, caller: Identity) -> Option<BoardoverseError> {
        if caller == self.initiator {
            Some(BoardoverseError::SelfPlay)
        } else if self.status == GameStatus::Active {
            Some(BoardoverseError::WrongState)
        } else if self.status.is_terminal() {
            Some(BoardoverseError::AlreadyTerminal)
        } else if self.counterparty != Identity::empty_spec() {
            Some(BoardoverseError::AlreadyFull)
        } else if self.pot + self.stake > u64::MAX {
            Some(BoardoverseError::InsufficientFunds)
        } else {
            None
        }
    }

    /// This wager after `caller` has joined it.
    pub open spec fn joined(self, caller: Identity) -> Game {
        Game {
            counterparty: caller,
            pot: (self.pot + self.stake) as u64,
            status: GameStatus::Active,
            ..self
        }
    }

    /// Why `caller` may not resolve this wager in favour of `winner`, if
    /// anything forbids it.
    ///
    /// Authority is tested first, then the stage, then the winner.
    pub open spec fn resolve_refusal(self, winner: Identity, caller: Identity) -> Option<
        BoardoverseError,
    > {
        if caller != self.arbiter {
            Some(BoardoverseError::Unauthorized)
        } else if self.status == GameStatus::AwaitingCounterparty {
            Some(BoardoverseError::WrongState)
        } else if self.status.is_terminal() {
            Some(BoardoverseError::AlreadyTerminal)
        } else if !self.is_participant(winner) {
            Some(BoardoverseError::InvalidWinner)
        } else {
            None
        }
    }

    /// This wager after it was resolved in favour of `winner`.
    pub open spec fn resolved(self, winner: Identity) -> Game {
        Game { pot: 0, status: GameStatus::Resolved, winner: Some(winner), ..self }
    }

    /// Why `caller` may not cancel this wager, if anything forbids it.
    pub open spec fn cancel_refusal(self, caller: Identity) -> Option<BoardoverseError> {
        if caller != self.arbiter {
            Some(BoardoverseError::Unauthorized)
        } else if self.status.is_terminal() {
            Some(BoardoverseError::AlreadyTerminal)
        } else {
            None
        }
    }

    /// This wager after it was cancelled.
    pub open spec fn cancelled(self) -> Game {
        Game { pot: 0, status: GameStatus::Cancelled, ..self }
    }

    /// What cancelling this wager refunds: the stake to each participant who
    /// has deposited one.
    pub open spec fn refund(self) -> Refund {
        if self.status == GameStatus::Active {
            Refund { to_initiator: self.stake, to_counterparty: self.stake }
        } else {
            Refund { to_initiator: self.stake, to_counterparty: 0 }
        }
    }

    /// Opens a wager on behalf of `caller`, who is to deposit `stake`.
    ///
    /// Refused with `InvalidAmount` exactly when `stake` is zero.
    pub fn open(id: String, stake: u64, arbiter: Identity, caller: Identity) -> (r: Result<
        Game,
        BoardoverseError,
    >)
        requires
            id_len(id@) <= MAX_ID_LEN,
        ensures
            stake == 0 ==> r == Err::<Game, BoardoverseError>(BoardoverseError::InvalidAmount),
            stake > 0 ==> r == Ok::<Game, BoardoverseError>(
                Game::opened(id, stake, arbiter, caller),
            ),
            r is Ok ==> r->Ok_0.wf(),
    {
        if stake == 0 {
            return Err(BoardoverseError::InvalidAmount);
        }
        Ok(
            Game {
                id,
                initiator: caller,
                counterparty: Identity::empty(),
                arbiter,
                stake,
                pot: stake,
                status: GameStatus::AwaitingCounterparty,
                winner: None,
            },
        )
    }

    /// Seats `caller` as the counterparty and returns the amount that
    /// `caller` is to deposit.
    ///
    /// On refusal the record is unchanged.
    pub fn join(&mut self, caller: Identity) -> (r: Result<u64, BoardoverseError>)
        ensures
            match old(self).join_refusal(caller) {
                Some(e) => r == Err::<u64, BoardoverseError>(e) && *final(self) == *old(self),
                None => {
                    &&& r == Ok::<u64, BoardoverseError>(old(self).stake)
                    &&& *final(self) == old(self).joined(caller)
                },
            },
            old(self).wf() ==> final(self).wf(),
    {
        if caller == self.initiator {
            return Err(BoardoverseError::SelfPlay);
        }
        match self.status {
            GameStatus::AwaitingCounterparty => {},
            GameStatus::Active => {
                return Err(BoardoverseError::WrongState);
            },
            GameStatus::Resolved => {
                return Err(BoardoverseError::AlreadyTerminal);
            },
            GameStatus::Cancelled => {
                return Err(BoardoverseError::AlreadyTerminal);
            },
        }
        if !self.counterparty.is_empty() {
            return Err(BoardoverseError::AlreadyFull);
        }
        if self.stake > u64::MAX - self.pot {
            return Err(BoardoverseError::InsufficientFunds);
        }
        self.counterparty = caller;
        self.pot = self.pot + self.stake;
        self.status = GameStatus::Active;
        Ok(self.stake)
    }

    /// Resolves the wager in favour of `winner` and returns what is to be
    /// paid to the winner: the whole pot.
    ///
    /// On refusal the record is unchanged.
    pub fn resolve(&mut self, winner: Identity, caller: Identity) -> (r: Result<
        u64,
        BoardoverseError,
    >)
        ensures
            match old(self).resolve_refusal(winner, caller) {
                Some(e) => r == Err::<u64, BoardoverseError>(e) && *final(self) == *old(self),
                None => {
                    &&& r == Ok::<u64, BoardoverseError>(old(self).pot)
                    &&& *final(self) == old(self).resolved(winner)
                },
            },
            old(self).wf() ==> final(self).wf(),
    {
        if caller != self.arbiter {
            return Err(BoardoverseError::Unauthorized);
        }
        match self.status {
            GameStatus::AwaitingCounterparty => {
                return Err(BoardoverseError::WrongState);
            },
            GameStatus::Active => {},
            GameStatus::Resolved => {
                return Err(BoardoverseError::AlreadyTerminal);
            },
            GameStatus::Cancelled => {
                return Err(BoardoverseError::AlreadyTerminal);
            },
        }
        if winner != self.initiator && winner != self.counterparty {
            return Err(BoardoverseError::InvalidWinner);
        }
        let prize: u64 = self.pot;
        self.winner = Some(winner);
        self.status = GameStatus::Resolved;
        self.pot = 0;
        Ok(prize)
    }

    /// Cancels the wager and returns what is to be refunded: the stake to the
    /// initiator, and to the counterparty too if the wager was active.
    ///
    /// On refusal the record is unchanged.
    pub fn cancel(&mut self, caller: Identity) -> (r: Result<Refund, BoardoverseError>)
        ensures
            match old(self).cancel_refusal(caller) {
                Some(e) => r == Err::<Refund, BoardoverseError>(e) && *final(self) == *old(self),
                None => {
                    &&& r == Ok::<Refund, BoardoverseError>(old(self).refund())
                    &&& *final(self) == old(self).cancelled()
                },
            },
            old(self).wf() ==> final(self).wf(),
    {
        if caller != self.arbiter {
            return Err(BoardoverseError::Unauthorized);
        }
        let refund: u64 = self.stake;
        match self.status {
            GameStatus::AwaitingCounterparty => {
                self.status = GameStatus::Cancelled;
                self.pot = 0;
                Ok(Refund { to_initiator: refund, to_counterparty: 0 })
            },
            GameStatus::Active => {
                self.status = GameStatus::Cancelled;
                self.pot = 0;
                Ok(Refund { to_initiator: refund, to_counterparty: refund })
            },
            GameStatus::Resolved => Err(BoardoverseError::AlreadyTerminal),
            GameStatus::Cancelled => Err(BoardoverseError::AlreadyTerminal),
        }
    }
}

} // verus!
