//! An in-memory storage gateway for lobby records.
//!
//! The gateway owns the persisted records and offers the three
//! operations the lobby service consumes: create, fetch, and
//! replace-by-identifier. Its abstract contents — the view — is the map
//! from identifier to lifecycle state that the state machine in
//! `lifecycle` is phrased over. A deployment that keeps its records in
//! a remote backend instead drives the decision functions of
//! `lifecycle` around its own fetch and persist calls; this gateway is
//! the injected dependency that the service and its tests run against.

use vstd::prelude::*;

use crate::errors::LobbyError;
use crate::game::{Game, GameState};

verus! {

/// The storage gateway: a flat collection of records, one per
/// identifier.
pub struct GameStore {
    records: Vec<Game>,
}

impl GameStore {
    /// Well-formedness: identifiers are unique across the stored
    /// records, so the identifier is a usable lookup key.
    pub closed spec fn wf(self) -> bool {
        forall|i: int, j: int|
            0 <= i < self.records@.len() && 0 <= j < self.records@.len() && i != j
                ==> self.records@[i].id@ != self.records@[j].id@
    }

    spec fn contains_id(self, id: Seq<char>) -> bool {
        exists|i: int| 0 <= i < self.records@.len() && self.records@[i].id@ == id
    }

    spec fn idx_of(self, id: Seq<char>) -> int {
        choose|i: int| 0 <= i < self.records@.len() && self.records@[i].id@ == id
    }

    spec fn state_of(self, id: Seq<char>) -> GameState {
        self.records@[self.idx_of(id)].state
    }

    /// In a well-formed store, the record at index `i` is the one its
    /// identifier looks up.
    proof fn lemma_state_at(self, i: int)
        requires
            self.wf(),
            0 <= i < self.records@.len(),
        ensures
            self.contains_id(self.records@[i].id@),
            self.idx_of(self.records@[i].id@) == i,
            self.state_of(self.records@[i].id@) == self.records@[i].state,
    {
        assert(self.contains_id(self.records@[i].id@));
        let j = self.idx_of(self.records@[i].id@);
        assert(0 <= j < self.records@.len() && self.records@[j].id@ == self.records@[i].id@);
    }

    /// An empty gateway.
    pub fn new() -> (s: GameStore)
        ensures
            s.wf(),
            s@ == Map::<Seq<char>, GameState>::empty(),
    {
        let s = GameStore { records: Vec::new() };
        proof {
            assert(s@ =~= Map::<Seq<char>, GameState>::empty());
        }
        s
    }

    /// The index of the record holding `key`, if any.
    fn find(&self, key: &String) -> (r: Option<usize>)
        ensures
            (r matches Some(i) ==> i < self.records@.len() && self.records@[i as int].id@
                == key@),
            r is None ==> !self.contains_id(key@),
    {
        let mut i: usize = 0;
        while i < self.records.len()
            invariant
                i <= self.records@.len(),
                forall|k: int| 0 <= k < i ==> self.records@[k].id@ != key@,
            decreases self.records@.len() - i,
        {
            if self.records[i].id == *key {
                return Some(i);
            }
            i += 1;
        }
        None
    }

    /// Persists a fresh record, one single-record write.
    ///
    /// A record whose identifier is already taken is refused as a
    /// storage failure — the backend's write, not this gateway's rules,
    /// is what rejects a duplicate key — and the contents are untouched.
    pub fn create(&mut self, game: Game) -> (r: Result<(), LobbyError>)
        requires
            old(self).wf(),
        ensures
            final(self).wf(),
            (old(self)@.contains_key(game.id@) ==> r == Err::<(), LobbyError>(
                LobbyError::StorageFailure,
            ) && final(self)@ == old(self)@),
            (!old(self)@.contains_key(game.id@) ==> r == Ok::<(), LobbyError>(()) && final(self)@
                == old(self)@.insert(game.id@, game.state)),
    {
        match self.find(&game.id) {
            Some(_) => Err(LobbyError::StorageFailure),
            None => {
                let ghost prev = *self;
                self.records.push(game);
                proof {
                    prev.lemma_push_view(*self, game);
                }
                Ok(())
            },
        }
    }

    /// Reads the record stored under `id`, or reports `NotFound`.
    pub fn fetch(&self, id: &str) -> (r: Result<Game, LobbyError>)
        requires
            self.wf(),
        ensures
            (self@.contains_key(id@) ==> (r matches Ok(g) && g.id@ == id@ && g.state
                == self@[id@])),
            (!self@.contains_key(id@) ==> r == Err::<Game, LobbyError>(LobbyError::NotFound)),
    {
        let key: String = id.to_owned();
        match self.find(&key) {
            Some(i) => {
                proof {
                    self.lemma_state_at(i as int);
                }
                Ok(Game { id: self.records[i].id.clone(), state: self.records[i].state })
            },
            None => Err(LobbyError::NotFound),
        }
    }

    /// Replaces the record stored under the given record's identifier:
    /// an unconditional whole-record write keyed by identifier.
    ///
    /// A record that is no longer present — for instance one that
    /// vanished between a fetch and this write — is reported as
    /// `NotFound`, never silently recreated.
    pub fn replace(&mut self, game: Game) -> (r: Result<(), LobbyError>)
        requires
            old(self).wf(),
        ensures
            final(self).wf(),
            (old(self)@.contains_key(game.id@) ==> r == Ok::<(), LobbyError>(()) && final(self)@
                == old(self)@.insert(game.id@, game.state)),
            (!old(self)@.contains_key(game.id@) ==> r == Err::<(), LobbyError>(
                LobbyError::NotFound,
            ) && final(self)@ == old(self)@),
    {
        match self.find(&game.id) {
            None => Err(LobbyError::NotFound),
            Some(i) => {
                let ghost prev = *self;
                let slot = &mut self.records[i];
                *slot = game;
                proof {
                    prev.lemma_update_view(*self, i as int, game);
                }
                Ok(())
            },
        }
    }

    /// Appending a record with a fresh identifier adds exactly that
    /// record to the contents.
    proof fn lemma_push_view(self, updated: GameStore, g: Game)
        requires
            self.wf(),
            !self.contains_id(g.id@),
            updated.records@ == self.records@.push(g),
        ensures
            updated.wf(),
            updated@ == self@.insert(g.id@, g.state),
    {
        let n = self.records@.len() as int;
        assert forall|i: int, j: int|
            0 <= i < updated.records@.len() && 0 <= j < updated.records@.len() && i != j
                implies updated.records@[i].id@ != updated.records@[j].id@ by {
            if i < n && j < n {
                assert(self.records@[i].id@ != self.records@[j].id@);
            } else if i == n {
                assert(!(0 <= j < n && self.records@[j].id@ == g.id@));
            } else {
                assert(!(0 <= i < n && self.records@[i].id@ == g.id@));
            }
        }
        assert forall|key: Seq<char>| #[trigger] updated.contains_id(key) implies (key == g.id@
            || self.contains_id(key)) by {
            let i = choose|i: int|
                0 <= i < updated.records@.len() && updated.records@[i].id@ == key;
            if i < n {
                assert(self.records@[i].id@ == key);
            }
        }
        assert forall|key: Seq<char>| #[trigger] self.contains_id(key) implies updated.contains_id(
            key,
        ) by {
            let i = choose|i: int| 0 <= i < self.records@.len() && self.records@[i].id@ == key;
            assert(updated.records@[i].id@ == key);
        }
        assert(updated.contains_id(g.id@)) by {
            assert(updated.records@[n].id@ == g.id@);
        }
        assert forall|key: Seq<char>| #[trigger] self.contains_id(key) implies updated.state_of(
            key,
        ) == self.state_of(key) by {
            let i = self.idx_of(key);
            assert(0 <= i < n && self.records@[i].id@ == key);
            assert(updated.records@[i].id@ == key);
            updated.lemma_state_at(i);
            assert(key != g.id@);
            assert(self.records@[i].state == updated.records@[i].state);
        }
        assert(updated.state_of(g.id@) == g.state) by {
            updated.lemma_state_at(n);
        }
        assert(updated@ =~= self@.insert(g.id@, g.state));
    }

    /// Overwriting the record at an index with a record carrying the
    /// same identifier re-keys nothing: the contents change only at
    /// that identifier.
    proof fn lemma_update_view(self, updated: GameStore, i: int, g: Game)
        requires
            self.wf(),
            0 <= i < self.records@.len(),
            self.records@[i].id@ == g.id@,
            updated.records@ == self.records@.update(i, g),
        ensures
            updated.wf(),
            updated@ == self@.insert(g.id@, g.state),
    {
        let n = self.records@.len() as int;
        assert forall|p: int, q: int|
            0 <= p < updated.records@.len() && 0 <= q < updated.records@.len() && p != q
                implies updated.records@[p].id@ != updated.records@[q].id@ by {
            assert(updated.records@[p].id@ == self.records@[p].id@);
            assert(updated.records@[q].id@ == self.records@[q].id@);
        }
        assert forall|key: Seq<char>| #[trigger] updated.contains_id(key) == self.contains_id(
            key,
        ) by {
            if updated.contains_id(key) {
                let p = choose|p: int|
                    0 <= p < updated.records@.len() && updated.records@[p].id@ == key;
                assert(self.records@[p].id@ == updated.records@[p].id@);
                assert(self.contains_id(key));
            }
            if self.contains_id(key) {
                let p = choose|p: int|
                    0 <= p < self.records@.len() && self.records@[p].id@ == key;
                assert(updated.records@[p].id@ == self.records@[p].id@);
                assert(updated.contains_id(key));
            }
        }
        assert forall|key: Seq<char>|
            self.contains_id(key) && key != g.id@ implies #[trigger] updated.state_of(key)
            == self.state_of(key) by {
            let p = self.idx_of(key);
            assert(0 <= p < n && self.records@[p].id@ == key);
            assert(p != i);
            assert(updated.records@[p].id@ == key);
            updated.lemma_state_at(p);
            self.lemma_state_at(p);
        }
        assert(updated.state_of(g.id@) == g.state) by {
            assert(updated.records@[i].id@ == g.id@);
            updated.lemma_state_at(i);
        }
        assert(updated@ =~= self@.insert(g.id@, g.state));
    }
}

impl View for GameStore {
    type V = Map<Seq<char>, GameState>;

    /// The abstract contents: each stored identifier mapped to its
    /// record's lifecycle state.
    closed spec fn view(&self) -> Map<Seq<char>, GameState> {
        Map::new(|id: Seq<char>| self.contains_id(id), |id: Seq<char>| self.state_of(id))
    }
}

} // verus!
