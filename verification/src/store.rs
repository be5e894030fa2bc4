use vstd::prelude::*;
use crate::game::Game;
use crate::sums::{lemma_sum_covers, lemma_sum_push, lemma_sum_remove, lemma_sum_update, sum};

verus! {

/// The wager records, each under its identifier.
///
/// As mathematics a store is a map from identifiers to records. It also
/// knows the sum of the pots of all the records it holds.
pub struct Store {
    games: Vec<Game>,
}

spec fn listed(s: Seq<Game>, id: Seq<char>) -> bool {
    exists|i: int| 0 <= i < s.len() && s[i].id@ == id
}

spec fn entry(s: Seq<Game>, id: Seq<char>) -> Game {
    s[choose|i: int| 0 <= i < s.len() && s[i].id@ == id]
}

spec fn pots(s: Seq<Game>) -> Seq<nat> {
    s.map_values(|g: Game| g.pot as nat)
}

spec fn distinct(s: Seq<Game>) -> bool {
    forall|i: int, j: int| 0 <= i < j < s.len() ==> s[i].id@ != s[j].id@
}

spec fn as_map(s: Seq<Game>) -> Map<Seq<char>, Game> {
    Map::new(|id: Seq<char>| listed(s, id), |id: Seq<char>| entry(s, id))
}

proof fn lemma_entry_at(s: Seq<Game>, i: int)
    requires
        distinct(s),
        0 <= i < s.len(),
    ensures
        listed(s, s[i].id@),
        entry(s, s[i].id@) == s[i],
{
}

proof fn lemma_replace(s: Seq<Game>, i: int, game: Game)
    requires
        distinct(s),
        0 <= i < s.len(),
        game.id@ == s[i].id@,
    ensures
        distinct(s.update(i, game)),
        as_map(s.update(i, game)) == as_map(s).insert(game.id@, game),
        sum(pots(s.update(i, game))) == sum(pots(s)) - s[i].pot + game.pot,
{
    let t = s.update(i, game);
    assert(distinct(t)) by {
        assert forall|a: int, b: int| 0 <= a < b < t.len() implies t[a].id@ != t[b].id@ by {
            assert(t[a].id@ == s[a].id@);
            assert(t[b].id@ == s[b].id@);
        }
    }
    assert forall|id: Seq<char>| listed(t, id) == listed(s, id) by {
        if listed(s, id) {
            let k = choose|k: int| 0 <= k < s.len() && s[k].id@ == id;
            assert(t[k].id@ == id);
        }
        if listed(t, id) {
            let k = choose|k: int| 0 <= k < t.len() && t[k].id@ == id;
            assert(s[k].id@ == id);
        }
    }
    assert forall|id: Seq<char>| listed(t, id) implies entry(t, id) == if id == game.id@ {
        game
    } else {
        entry(s, id)
    } by {
        let k = choose|k: int| 0 <= k < t.len() && t[k].id@ == id;
        assert(s[k].id@ == id);
        lemma_entry_at(t, k);
        lemma_entry_at(s, k);
    }
    lemma_entry_at(s, i);
    assert(as_map(t) =~= as_map(s).insert(game.id@, game));
    assert(pots(t) =~= pots(s).update(i, game.pot as nat));
    lemma_sum_update(pots(s), i, game.pot as nat);
}

proof fn lemma_append(s: Seq<Game>, game: Game)
    requires
        distinct(s),
        !listed(s, game.id@),
    ensures
        distinct(s.push(game)),
        as_map(s.push(game)) == as_map(s).insert(game.id@, game),
        sum(pots(s.push(game))) == sum(pots(s)) + game.pot,
{
    let t = s.push(game);
    assert(distinct(t)) by {
        assert forall|a: int, b: int| 0 <= a < b < t.len() implies t[a].id@ != t[b].id@ by {
            if b == s.len() {
                assert(t[a].id@ == s[a].id@);
            }
        }
    }
    assert forall|id: Seq<char>| listed(t, id) == (listed(s, id) || id == game.id@) by {
        if listed(s, id) {
            let k = choose|k: int| 0 <= k < s.len() && s[k].id@ == id;
            assert(t[k].id@ == id);
        }
        if id == game.id@ {
            assert(t[s.len() as int].id@ == id);
        }
        if listed(t, id) && id != game.id@ {
            let k = choose|k: int| 0 <= k < t.len() && t[k].id@ == id;
            assert(s[k].id@ == id);
        }
    }
    assert forall|id: Seq<char>| listed(t, id) implies entry(t, id) == if id == game.id@ {
        game
    } else {
        entry(s, id)
    } by {
        let k = choose|k: int| 0 <= k < t.len() && t[k].id@ == id;
        lemma_entry_at(t, k);
        if id != game.id@ {
            assert(s[k].id@ == id);
            lemma_entry_at(s, k);
        }
    }
    assert(as_map(t) =~= as_map(s).insert(game.id@, game));
    assert(pots(t) =~= pots(s).push(game.pot as nat));
    lemma_sum_push(pots(s), game.pot as nat);
}

proof fn lemma_take_out(s: Seq<Game>, i: int)
    requires
        distinct(s),
        0 <= i < s.len(),
    ensures
        distinct(s.remove(i)),
        as_map(s.remove(i)) == as_map(s).remove(s[i].id@),
        sum(pots(s.remove(i))) == sum(pots(s)) - s[i].pot,
{
    let t = s.remove(i);
    let gone = s[i].id@;
    assert(distinct(t)) by {
        assert forall|a: int, b: int| 0 <= a < b < t.len() implies t[a].id@ != t[b].id@ by {
            let a0 = if a < i { a } else { a + 1 };
            let b0 = if b < i { b } else { b + 1 };
            assert(t[a] == s[a0]);
            assert(t[b] == s[b0]);
        }
    }
    assert forall|id: Seq<char>| listed(t, id) == (listed(s, id) && id != gone) by {
        if listed(s, id) && id != gone {
            let k = choose|k: int| 0 <= k < s.len() && s[k].id@ == id;
            let k1 = if k < i { k } else { k - 1 };
            assert(t[k1] == s[k]);
        }
        if listed(t, id) {
            let k = choose|k: int| 0 <= k < t.len() && t[k].id@ == id;
            let k0 = if k < i { k } else { k + 1 };
            assert(t[k] == s[k0]);
            assert(s[k0].id@ == id);
        }
    }
    assert forall|id: Seq<char>| listed(t, id) implies entry(t, id) == entry(s, id) by {
        let k = choose|k: int| 0 <= k < t.len() && t[k].id@ == id;
        let k0 = if k < i { k } else { k + 1 };
        assert(t[k] == s[k0]);
        lemma_entry_at(t, k);
        lemma_entry_at(s, k0);
    }
    assert(as_map(t) =~= as_map(s).remove(gone));
    assert(pots(t) =~= pots(s).remove(i));
    lemma_sum_remove(pots(s), i);
}

impl View for Store {
    type V = Map<Seq<char>, Game>;

    closed spec fn view(&self) -> Map<Seq<char>, Game> {
        as_map(self.games@)
    }
}

impl Store {
    /// The invariant of the store: no identifier is held twice.
    pub closed spec fn wf(&self) -> bool {
        distinct(self.games@)
    }

    /// The sum of the pots of all the records held.
    pub closed spec fn total_pot(&self) -> nat {
        sum(pots(self.games@))
    }

    /// The pot of the record under `id`; zero where there is none.
    pub open spec fn pot_of(&self, id: Seq<char>) -> nat {
        if self@.contains_key(id) {
            self@[id].pot as nat
        } else {
            0
        }
    }

    /// Every record is held under its own identifier.
    pub proof fn lemma_keyed_by_id(&self, id: Seq<char>)
        requires
            self.wf(),
            self@.contains_key(id),
        ensures
            self@[id].id@ == id,
    {
    }

    /// The pot of any one record is part of the total.
    pub proof fn lemma_pot_covered(&self, id: Seq<char>)
        requires
            self.wf(),
        ensures
            self.pot_of(id) <= self.total_pot(),
    {
        if self@.contains_key(id) {
            let k = choose|k: int| 0 <= k < self.games@.len() && self.games@[k].id@ == id;
            lemma_sum_covers(pots(self.games@), k);
        }
    }

    /// A store that holds nothing.
    pub fn new() -> (store: Store)
        ensures
            store.wf(),
            store@ == Map::<Seq<char>, Game>::empty(),
            store.total_pot() == 0,
    {
        let store = Store { games: Vec::new() };
        proof {
            assert(store@ =~= Map::<Seq<char>, Game>::empty());
        }
        store
    }

    fn find(&self, id: &String) -> (r: Option<usize>)
        ensures
            match r {
                Some(i) => i < self.games@.len() && self.games@[i as int].id@ == id@,
                None => !listed(self.games@, id@),
            },
    {
        let mut i: usize = 0;
        while i < self.games.len()
            invariant
                i <= self.games@.len(),
                forall|j: int| 0 <= j < i ==> self.games@[j].id@ != id@,
            decreases self.games@.len() - i,
        {
            if self.games[i].id == *id {
                return Some(i);
            }
            i += 1;
        }
        None
    }

    /// The record held under `id`, if there is one.
    pub fn get(&self, id: &String) -> (r: Option<&Game>)
        requires
            self.wf(),
        ensures
            match r {
                Some(game) => self@.contains_key(id@) && *game == self@[id@],
                None => !self@.contains_key(id@),
            },
    {
        match self.find(id) {
            Some(i) => {
                proof {
                    lemma_entry_at(self.games@, i as int);
                }
                Some(&self.games[i])
            },
            None => None,
        }
    }

    /// Holds `game` under its identifier, in place of any record that was
    /// held under it before.
    pub fn put(&mut self, game: Game)
        requires
            old(self).wf(),
        ensures
            final(self).wf(),
            final(self)@ == old(self)@.insert(game.id@, game),
            final(self).total_pot() == old(self).total_pot() - old(self).pot_of(game.id@)
                + game.pot,
    {
        match self.find(&game.id) {
            Some(i) => {
                proof {
                    lemma_entry_at(self.games@, i as int);
                    lemma_replace(self.games@, i as int, game);
                }
                self.games.set(i, game);
            },
            None => {
                proof {
                    lemma_append(self.games@, game);
                }
                self.games.push(game);
            },
        }
    }

    /// Stops holding a record under `id`, and hands back the record that was
    /// held, if there was one.
    pub fn delete(&mut self, id: &String) -> (r: Option<Game>)
        requires
            old(self).wf(),
        ensures
            final(self).wf(),
            final(self)@ == old(self)@.remove(id@),
            final(self).total_pot() == old(self).total_pot() - old(self).pot_of(id@),
            match r {
                Some(game) => old(self)@.contains_key(id@) && game == old(self)@[id@],
                None => !old(self)@.contains_key(id@),
            },
    {
        match self.find(id) {
            Some(i) => {
                proof {
                    lemma_entry_at(self.games@, i as int);
                    lemma_take_out(self.games@, i as int);
                }
                Some(self.games.remove(i))
            },
            None => {
                proof {
                    assert(final(self)@ =~= old(self)@.remove(id@));
                }
                None
            },
        }
    }
}

} // verus!
