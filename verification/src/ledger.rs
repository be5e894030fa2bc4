use vstd::prelude::*;
use crate::error::BoardoverseError;
use crate::identity::Identity;
use crate::sums::{lemma_sum_covers, lemma_sum_push, lemma_sum_update, sum};

verus! {

/// What one holder owns outside escrow.
#[derive(Clone, Copy, Debug)]
struct Account {
    owner: Identity,
    balance: u64,
}

/// The books as mathematics: every identity's balance, what escrow holds, and
/// how much was ever issued.
pub struct LedgerView {
    /// The balance of every identity; zero for one that never held anything.
    pub balances: Map<Identity, nat>,
    /// What escrow holds on behalf of open wagers.
    pub custody: nat,
    /// Everything in the books: all balances and custody together.
    pub supply: nat,
}

impl LedgerView {
    /// What holds of the books at all times: every identity has a balance,
    /// and any balance together with custody is within what was issued, which
    /// fits the machine's widest amount.
    pub open spec fn wf(self) -> bool {
        &&& self.balances.dom() == Set::<Identity>::full()
        &&& self.supply <= u64::MAX
        &&& forall|who: Identity| #[trigger] self.balances[who] + self.custody <= self.supply
    }

    /// The books after `amount` was issued to `who`.
    pub open spec fn funded(self, who: Identity, amount: nat) -> LedgerView {
        LedgerView {
            balances: self.balances.insert(who, self.balances[who] + amount),
            custody: self.custody,
            supply: self.supply + amount,
        }
    }

    /// The books after `from` moved `amount` into escrow.
    pub open spec fn deposited(self, from: Identity, amount: nat) -> LedgerView {
        LedgerView {
            balances: self.balances.insert(from, (self.balances[from] - amount) as nat),
            custody: self.custody + amount,
            supply: self.supply,
        }
    }

    /// The books after escrow paid `amount` to `to`.
    pub open spec fn released(self, to: Identity, amount: nat) -> LedgerView {
        LedgerView {
            balances: self.balances.insert(to, self.balances[to] + amount),
            custody: (self.custody - amount) as nat,
            supply: self.supply,
        }
    }
}

/// Balances of identities and the escrow's custody account.
///
/// Value only moves: a deposit takes from a holder what it adds to custody,
/// a release the reverse. Only `fund` brings value in.
pub struct Ledger {
    accounts: Vec<Account>,
    custody: u64,
    supply: u64,
}

spec fn holds(s: Seq<Account>, who: Identity) -> bool {
    exists|i: int| 0 <= i < s.len() && s[i].owner == who
}

spec fn balance_in(s: Seq<Account>, who: Identity) -> nat {
    if holds(s, who) {
        let i = choose|i: int| 0 <= i < s.len() && s[i].owner == who;
        s[i].balance as nat
    } else {
        0
    }
}

spec fn amounts(s: Seq<Account>) -> Seq<nat> {
    s.map_values(|a: Account| a.balance as nat)
}

spec fn distinct(s: Seq<Account>) -> bool {
    forall|i: int, j: int| 0 <= i < j < s.len() ==> s[i].owner != s[j].owner
}

proof fn lemma_balance_at(s: Seq<Account>, i: int)
    requires
        distinct(s),
        0 <= i < s.len(),
    ensures
        holds(s, s[i].owner),
        balance_in(s, s[i].owner) == s[i].balance,
{
}

proof fn lemma_set_balance(s: Seq<Account>, i: int, balance: u64)
    requires
        distinct(s),
        0 <= i < s.len(),
    ensures
        ({
            let t = s.update(i, Account { owner: s[i].owner, balance });
            &&& distinct(t)
            &&& forall|who: Identity| #[trigger]
                balance_in(t, who) == if who == s[i].owner {
                    balance as nat
                } else {
                    balance_in(s, who)
                }
            &&& sum(amounts(t)) == sum(amounts(s)) - s[i].balance + balance
        }),
{
    let t = s.update(i, Account { owner: s[i].owner, balance });
    assert(distinct(t)) by {
        assert forall|a: int, b: int| 0 <= a < b < t.len() implies t[a].owner != t[b].owner by {
            assert(t[a].owner == s[a].owner);
            assert(t[b].owner == s[b].owner);
        }
    }
    assert forall|who: Identity| #[trigger]
        balance_in(t, who) == if who == s[i].owner {
            balance as nat
        } else {
            balance_in(s, who)
        } by {
        if holds(s, who) {
            let k = choose|k: int| 0 <= k < s.len() && s[k].owner == who;
            assert(t[k].owner == who);
            lemma_balance_at(t, k);
            lemma_balance_at(s, k);
        } else if holds(t, who) {
            let k = choose|k: int| 0 <= k < t.len() && t[k].owner == who;
            assert(s[k].owner == who);
        }
    }
    assert(amounts(t) =~= amounts(s).update(i, balance as nat));
    lemma_sum_update(amounts(s), i, balance as nat);
}

proof fn lemma_add_account(s: Seq<Account>, a: Account)
    requires
        distinct(s),
        !holds(s, a.owner),
    ensures
        distinct(s.push(a)),
        forall|who: Identity| #[trigger]
            balance_in(s.push(a), who) == if who == a.owner {
                a.balance as nat
            } else {
                balance_in(s, who)
            },
        sum(amounts(s.push(a))) == sum(amounts(s)) + a.balance,
{
    let t = s.push(a);
    assert(distinct(t)) by {
        assert forall|x: int, y: int| 0 <= x < y < t.len() implies t[x].owner != t[y].owner by {
            if y == s.len() {
                assert(t[x].owner == s[x].owner);
            }
        }
    }
    assert forall|who: Identity| #[trigger]
        balance_in(t, who) == if who == a.owner {
            a.balance as nat
        } else {
            balance_in(s, who)
        } by {
        if who == a.owner {
            assert(t[s.len() as int].owner == who);
            lemma_balance_at(t, s.len() as int);
        } else if holds(s, who) {
            let k = choose|k: int| 0 <= k < s.len() && s[k].owner == who;
            assert(t[k].owner == who);
            lemma_balance_at(t, k);
            lemma_balance_at(s, k);
        } else if holds(t, who) {
            let k = choose|k: int| 0 <= k < t.len() && t[k].owner == who;
            assert(s[k].owner == who);
        }
    }
    assert(amounts(t) =~= amounts(s).push(a.balance as nat));
    lemma_sum_push(amounts(s), a.balance as nat);
}

impl View for Ledger {
    type V = LedgerView;

    closed spec fn view(&self) -> LedgerView {
        LedgerView {
            balances: Map::total(|who: Identity| balance_in(self.accounts@, who)),
            custody: self.custody as nat,
            supply: self.supply as nat,
        }
    }
}

impl Ledger {
    /// The invariant of the books: no holder is listed twice, and the
    /// balances and custody add up to what was issued.
    pub closed spec fn wf(&self) -> bool {
        &&& distinct(self.accounts@)
        &&& self.supply == sum(amounts(self.accounts@)) + self.custody
    }

    /// Well-formed books look well formed.
    pub proof fn lemma_view_wf(&self)
        requires
            self.wf(),
        ensures
            self@.wf(),
    {
        assert forall|who: Identity| #[trigger]
            self@.balances[who] + self@.custody <= self@.supply by {
            if holds(self.accounts@, who) {
                let s = self.accounts@;
                let k = choose|k: int| 0 <= k < s.len() && s[k].owner == who;
                lemma_sum_covers(amounts(s), k);
            }
        }
    }

    /// Books in which nobody owns anything.
    pub fn new() -> (ledger: Ledger)
        ensures
            ledger.wf(),
            ledger@.custody == 0,
            ledger@.supply == 0,
            forall|who: Identity| #[trigger] ledger@.balances[who] == 0,
    {
        Ledger { accounts: Vec::new(), custody: 0, supply: 0 }
    }

    fn find(&self, who: &Identity) -> (r: Option<usize>)
        ensures
            match r {
                Some(i) => i < self.accounts@.len() && self.accounts@[i as int].owner == *who,
                None => !holds(self.accounts@, *who),
            },
    {
        let mut i: usize = 0;
        while i < self.accounts.len()
            invariant
                i <= self.accounts@.len(),
                forall|j: int| 0 <= j < i ==> self.accounts@[j].owner != *who,
            decreases self.accounts@.len() - i,
        {
            if self.accounts[i].owner == *who {
                return Some(i);
            }
            i += 1;
        }
        None
    }

    /// What `who` owns outside escrow.
    pub fn balance(&self, who: &Identity) -> (amount: u64)
        requires
            self.wf(),
        ensures
            amount == self@.balances[*who],
    {
        match self.find(who) {
            Some(i) => {
                proof {
                    lemma_balance_at(self.accounts@, i as int);
                }
                self.accounts[i].balance
            },
            None => 0,
        }
    }

    /// What escrow holds.
    pub fn custody(&self) -> (amount: u64)
        ensures
            amount == self@.custody,
    {
        self.custody
    }

    /// Everything in the books.
    pub fn supply(&self) -> (amount: u64)
        ensures
            amount == self@.supply,
    {
        self.supply
    }

    /// Issues `amount` to `who`.
    ///
    /// Refused with `InsufficientFunds`, and nothing changes, exactly when the
    /// books would then hold more than `u64::MAX`.
    pub fn fund(&mut self, who: &Identity, amount: u64) -> (r: Result<(), BoardoverseError>)
        requires
            old(self).wf(),
        ensures
            final(self).wf(),
            old(self)@.supply + amount > u64::MAX ==> {
                &&& r == Err::<(), BoardoverseError>(BoardoverseError::InsufficientFunds)
                &&& final(self)@ == old(self)@
            },
            old(self)@.supply + amount <= u64::MAX ==> {
                &&& r is Ok
                &&& final(self)@ == old(self)@.funded(*who, amount as nat)
            },
    {
        if amount > u64::MAX - self.supply {
            return Err(BoardoverseError::InsufficientFunds);
        }
        self.supply = self.supply + amount;
        self.credit(who, amount);
        proof {
            assert(final(self)@.balances =~= old(self)@.funded(*who, amount as nat).balances);
        }
        Ok(())
    }

    /// Adds `amount` to the balance of `who`, leaving custody and supply alone.
    fn credit(&mut self, who: &Identity, amount: u64)
        requires
            distinct(old(self).accounts@),
            sum(amounts(old(self).accounts@)) + amount <= u64::MAX,
        ensures
            distinct(final(self).accounts@),
            final(self).custody == old(self).custody,
            final(self).supply == old(self).supply,
            sum(amounts(final(self).accounts@)) == sum(amounts(old(self).accounts@)) + amount,
            forall|w: Identity| #[trigger]
                balance_in(final(self).accounts@, w) == if w == *who {
                    (balance_in(old(self).accounts@, w) + amount) as nat
                } else {
                    balance_in(old(self).accounts@, w)
                },
    {
        match self.find(who) {
            Some(i) => {
                let before: u64 = self.accounts[i].balance;
                proof {
                    lemma_balance_at(self.accounts@, i as int);
                    lemma_sum_covers(amounts(self.accounts@), i as int);
                    lemma_set_balance(self.accounts@, i as int, (before + amount) as u64);
                }
                self.accounts.set(i, Account { owner: *who, balance: before + amount });
            },
            None => {
                proof {
                    lemma_add_account(self.accounts@, Account { owner: *who, balance: amount });
                }
                self.accounts.push(Account { owner: *who, balance: amount });
            },
        }
    }

    /// Moves `amount` from the balance of `from` into escrow.
    ///
    /// Refused with `InsufficientFunds`, and nothing changes, exactly when
    /// `from` owns less than `amount`.
    pub fn deposit(&mut self, from: &Identity, amount: u64) -> (r: Result<(), BoardoverseError>)
        requires
            old(self).wf(),
        ensures
            final(self).wf(),
            old(self)@.balances[*from] < amount ==> {
                &&& r == Err::<(), BoardoverseError>(BoardoverseError::InsufficientFunds)
                &&& final(self)@ == old(self)@
            },
            old(self)@.balances[*from] >= amount ==> {
                &&& r is Ok
                &&& final(self)@ == old(self)@.deposited(*from, amount as nat)
            },
    {
        match self.find(from) {
            Some(i) => {
                let before: u64 = self.accounts[i].balance;
                proof {
                    lemma_balance_at(self.accounts@, i as int);
                }
                if before < amount {
                    return Err(BoardoverseError::InsufficientFunds);
                }
                proof {
                    lemma_sum_covers(amounts(self.accounts@), i as int);
                    lemma_set_balance(self.accounts@, i as int, (before - amount) as u64);
                }
                self.accounts.set(i, Account { owner: *from, balance: before - amount });
                self.custody = self.custody + amount;
                proof {
                    assert(final(self)@.balances =~= old(self)@.deposited(
                        *from,
                        amount as nat,
                    ).balances);
                }
                Ok(())
            },
            None => {
                if amount > 0 {
                    return Err(BoardoverseError::InsufficientFunds);
                }
                proof {
                    assert(final(self)@.balances =~= old(self)@.deposited(
                        *from,
                        amount as nat,
                    ).balances);
                }
                Ok(())
            },
        }
    }

    /// Pays `amount` out of escrow to `to`.
    ///
    /// Refused with `InsufficientFunds`, and nothing changes, exactly when
    /// escrow holds less than `amount`.
    pub fn release(&mut self, to: &Identity, amount: u64) -> (r: Result<(), BoardoverseError>)
        requires
            old(self).wf(),
        ensures
            final(self).wf(),
            old(self)@.custody < amount ==> {
                &&& r == Err::<(), BoardoverseError>(BoardoverseError::InsufficientFunds)
                &&& final(self)@ == old(self)@
            },
            old(self)@.custody >= amount ==> {
                &&& r is Ok
                &&& final(self)@ == old(self)@.released(*to, amount as nat)
            },
    {
        if self.custody < amount {
            return Err(BoardoverseError::InsufficientFunds);
        }
        self.custody = self.custody - amount;
        self.credit(to, amount);
        proof {
            assert(final(self)@.balances =~= old(self)@.released(*to, amount as nat).balances);
        }
        Ok(())
    }
}

} // verus!
