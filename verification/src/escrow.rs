use vstd::prelude::*;
use crate::error::BoardoverseError;
use crate::game::Game;
use crate::identity::Identity;
use crate::ledger::{Ledger, LedgerView};
use crate::store::Store;

verus! {

/// An escrow as mathematics: the open wagers by identifier, and the books.
pub struct EscrowView {
    pub games: Map<Seq<char>, Game>,
    pub ledger: LedgerView,
}

impl EscrowView {
    /// What holds of an escrow at all times: every record kept is a
    /// well-formed open wager under its own identifier, custody covers its
    /// pot, and the books are in order.
    pub open spec fn wf(self) -> bool {
        &&& self.ledger.wf()
        &&& forall|id: Seq<char>| #[trigger]
            self.games.contains_key(id) ==> {
                &&& self.games[id].wf()
                &&& !self.games[id].status.is_terminal()
                &&& self.games[id].id@ == id
                &&& self.games[id].pot <= self.ledger.custody
            }
    }
}

/// The wager records together with the ledger that holds their stakes.
///
/// Only wagers that are still open are kept: a wager that is resolved or
/// cancelled is taken out in the same step.
pub struct Escrow {
    pub(crate) store: Store,
    pub(crate) ledger: Ledger,
}

impl Escrow {
    /// The wagers kept and the books, as mathematics.
    pub open(crate) spec fn view(&self) -> EscrowView {
        EscrowView { games: self.store@, ledger: self.ledger@ }
    }

    /// The invariant of an escrow: every record kept is a well-formed open
    /// wager, and custody holds exactly the sum of their pots.
    pub open(crate) spec fn wf(&self) -> bool {
        &&& self.store.wf()
        &&& self.ledger.wf()
        &&& self.ledger@.custody == self.store.total_pot()
        &&& forall|id: Seq<char>| #[trigger]
            self.store@.contains_key(id) ==> self.store@[id].wf()
                && !self.store@[id].status.is_terminal()
    }

    /// An escrow with no wagers, in which nobody owns anything.
    pub fn new() -> (escrow: Escrow)
        ensures
            escrow.wf(),
            escrow@.games == Map::<Seq<char>, Game>::empty(),
            escrow@.ledger.custody == 0,
            escrow@.ledger.supply == 0,
            forall|who: Identity| #[trigger] escrow@.ledger.balances[who] == 0,
    {
        Escrow { store: Store::new(), ledger: Ledger::new() }
    }

    /// A well-formed escrow looks well formed.
    pub proof fn lemma_view_wf(&self)
        requires
            self.wf(),
        ensures
            self@.wf(),
    {
        self.ledger.lemma_view_wf();
        assert forall|id: Seq<char>| #[trigger] self@.games.contains_key(id) implies {
            &&& self@.games[id].id@ == id
            &&& self@.games[id].pot <= self@.ledger.custody
        } by {
            self.store.lemma_keyed_by_id(id);
            self.store.lemma_pot_covered(id);
        }
    }

    /// Issues `amount` to `who` from outside the escrow.
    ///
    /// Refused with `InsufficientFunds`, and nothing changes, exactly when the
    /// books would then hold more than `u64::MAX`.
    pub fn fund(&mut self, who: &Identity, amount: u64) -> (r: Result<(), BoardoverseError>)
        requires
            old(self).wf(),
        ensures
            final(self).wf(),
            final(self)@.games == old(self)@.games,
            old(self)@.ledger.supply + amount > u64::MAX ==> {
                &&& r == Err::<(), BoardoverseError>(BoardoverseError::InsufficientFunds)
                &&& final(self)@ == old(self)@
            },
            old(self)@.ledger.supply + amount <= u64::MAX ==> {
                &&& r is Ok
                &&& final(self)@.ledger == old(self)@.ledger.funded(*who, amount as nat)
            },
    {
        self.ledger.fund(who, amount)
    }

    /// What `who` owns outside escrow.
    pub fn balance(&self, who: &Identity) -> (amount: u64)
        requires
            self.wf(),
        ensures
            amount == self@.ledger.balances[*who],
    {
        self.ledger.balance(who)
    }

    /// What escrow holds on behalf of all open wagers.
    pub fn custody(&self) -> (amount: u64)
        ensures
            amount == self@.ledger.custody,
    {
        self.ledger.custody()
    }

    /// The open wager under `id`, if there is one.
    pub fn game(&self, id: &String) -> (r: Option<&Game>)
        requires
            self.wf(),
        ensures
            match r {
                Some(game) => self@.games.contains_key(id@) && *game == self@.games[id@],
                None => !self@.games.contains_key(id@),
            },
    {
        self.store.get(id)
    }
}

} // verus!
