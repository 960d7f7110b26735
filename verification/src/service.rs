//! The lobby service: the four operations, each a fetch-check-mutate-
//! persist sequence over the storage gateway.
//!
//! Every operation promises exactly the `*_result` and `*_next`
//! functions of the lifecycle model, so a caller knows, for every
//! input, both the client-visible outcome and the stored contents
//! afterwards. The gateway is an injected dependency, handed in at
//! construction, never an implicit singleton.

use vstd::prelude::*;

use crate::errors::LobbyError;
use crate::game::{Game, GameState};
use crate::ids;
use crate::lifecycle::{cancel_next, cancel_result, create_next, join_next, join_result,
    status_result};
use crate::store::GameStore;

verus! {

/// The lobby service over a storage gateway.
pub struct LobbyService {
    store: GameStore,
}

impl LobbyService {
    /// The service is well-formed whenever its gateway is.
    pub closed spec fn wf(self) -> bool {
        self.store.wf()
    }

    /// A service over an empty gateway.
    pub fn new() -> (s: LobbyService)
        ensures
            s.wf(),
            s@ == Map::<Seq<char>, GameState>::empty(),
    {
        LobbyService { store: GameStore::new() }
    }

    /// A service over an existing gateway — the injected dependency.
    pub fn with_store(store: GameStore) -> (s: LobbyService)
        requires
            store.wf(),
        ensures
            s.wf(),
            s@ == store@,
    {
        LobbyService { store }
    }

    /// Creates a lobby under the given identifier and persists it in
    /// state `Pending`. Succeeds if and only if the identifier is not
    /// already taken; a taken identifier is a storage failure, and the
    /// stored contents are untouched.
    pub fn create_game_with_id(&mut self, id: String) -> (r: Result<String, LobbyError>)
        requires
            old(self).wf(),
        ensures
            final(self).wf(),
            final(self)@ == create_next(old(self)@, id@),
            (old(self)@.contains_key(id@) ==> r == Err::<String, LobbyError>(
                LobbyError::StorageFailure,
            )),
            (!old(self)@.contains_key(id@) ==> (r matches Ok(rid) && rid == id)),
    {
        let game = Game::new(id);
        let returned = Game { id: game.id.clone(), state: game.state };
        match self.store.create(game) {
            Ok(()) => Ok(returned.id),
            Err(e) => Err(e),
        }
    }

    /// Creates a lobby under a freshly drawn random identifier.
    ///
    /// On success the returned identifier was previously unseen — a
    /// taken identifier would have been refused by the gateway — and is
    /// now stored in state `Pending`. The draw is random, so
    /// unconditional success cannot be promised: if the drawn
    /// identifier happens to be taken, the storage failure is reported
    /// and nothing changes. But the draw is always 36 characters long,
    /// so success is owed whenever no stored identifier has that length
    /// — in particular, a create against an empty service cannot fail.
    pub fn create_game(&mut self) -> (r: Result<String, LobbyError>)
        requires
            old(self).wf(),
        ensures
            final(self).wf(),
            (r matches Ok(id) ==> !old(self)@.contains_key(id@)
                && final(self)@ == old(self)@.insert(id@, GameState::Pending)),
            (r is Err ==> r == Err::<String, LobbyError>(LobbyError::StorageFailure)
                && final(self)@ == old(self)@),
            (forall|k: Seq<char>| old(self)@.contains_key(k) ==> k.len() != 36) ==> r is Ok,
    {
        let id = ids::fresh_token();
        self.create_game_with_id(id)
    }

    /// Joins the lobby stored under `id`: fetches the record, refuses
    /// anything but a pending one, then persists it as `Ongoing`.
    pub fn join_game(&mut self, id: &str) -> (r: Result<(), LobbyError>)
        requires
            old(self).wf(),
        ensures
            final(self).wf(),
            r == join_result(old(self)@, id@),
            final(self)@ == join_next(old(self)@, id@),
    {
        let fetched = match self.store.fetch(id) {
            Ok(g) => g,
            Err(e) => {
                return Err(e);
            },
        };
        if fetched.state == GameState::Pending {
            let updated = Game { id: fetched.id, state: GameState::Ongoing };
            match self.store.replace(updated) {
                Ok(()) => Ok(()),
                Err(e) => Err(e),
            }
        } else {
            Err(LobbyError::Conflict)
        }
    }

    /// Reports the stored state of the lobby under `id` verbatim. A
    /// pure read: nothing is mutated, so it is safe to retry freely.
    pub fn get_status(&self, id: &str) -> (r: Result<GameState, LobbyError>)
        requires
            self.wf(),
        ensures
            r == status_result(self@, id@),
    {
        match self.store.fetch(id) {
            Ok(g) => Ok(g.state),
            Err(e) => Err(e),
        }
    }

    /// Cancels the lobby stored under `id`: fetches the record, refuses
    /// a terminal one, then persists it as `Cancelled`.
    pub fn cancel_game(&mut self, id: &str) -> (r: Result<(), LobbyError>)
        requires
            old(self).wf(),
        ensures
            final(self).wf(),
            r == cancel_result(old(self)@, id@),
            final(self)@ == cancel_next(old(self)@, id@),
    {
        let fetched = match self.store.fetch(id) {
            Ok(g) => g,
            Err(e) => {
                return Err(e);
            },
        };
        match fetched.state {
            GameState::Pending | GameState::Ongoing => {
                let updated = Game { id: fetched.id, state: GameState::Cancelled };
                match self.store.replace(updated) {
                    Ok(()) => Ok(()),
                    Err(e) => Err(e),
                }
            },
            _ => Err(LobbyError::Conflict),
        }
    }
}

impl View for LobbyService {
    type V = Map<Seq<char>, GameState>;

    /// The service's abstract contents are its gateway's.
    closed spec fn view(&self) -> Map<Seq<char>, GameState> {
        self.store@
    }
}

} // verus!
