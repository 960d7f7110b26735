//! The lobby lifecycle state machine.
//!
//! The abstract model views the stored contents as a map from lobby
//! identifier to lifecycle state. Each operation is described twice: a
//! `*_result` spec function gives the client-visible outcome, and a
//! `*_next` spec function gives the stored contents afterwards. The
//! executable operations elsewhere in the crate promise exactly these
//! two functions of their inputs, and the laws module proves the
//! lifecycle properties from them.

use vstd::prelude::*;

use crate::errors::LobbyError;
use crate::game::{Game, GameState};

verus! {

/// A lobby accepts a join only while it still waits for its second
/// party.
pub open spec fn can_join(s: GameState) -> bool {
    s == GameState::Pending
}

/// A lobby may be cancelled while it is pending or ongoing.
pub open spec fn can_cancel(s: GameState) -> bool {
    s == GameState::Pending || s == GameState::Ongoing
}

/// `Finished` and `Cancelled` are terminal: no operation leaves them.
pub open spec fn is_terminal(s: GameState) -> bool {
    s == GameState::Finished || s == GameState::Cancelled
}

/// Outcome of creating a lobby under identifier `id`: refused with a
/// storage failure if a record with that identifier already exists.
pub open spec fn create_result(m: Map<Seq<char>, GameState>, id: Seq<char>) -> Result<
    (),
    LobbyError,
> {
    if m.contains_key(id) {
        Err(LobbyError::StorageFailure)
    } else {
        Ok(())
    }
}

/// Stored contents after creating a lobby under `id`.
pub open spec fn create_next(m: Map<Seq<char>, GameState>, id: Seq<char>) -> Map<
    Seq<char>,
    GameState,
> {
    if m.contains_key(id) {
        m
    } else {
        m.insert(id, GameState::Pending)
    }
}

/// Outcome of a join: absent records are `NotFound`, records in any
/// state but `Pending` are a `Conflict`, and a pending record is joined.
pub open spec fn join_result(m: Map<Seq<char>, GameState>, id: Seq<char>) -> Result<
    (),
    LobbyError,
> {
    if !m.contains_key(id) {
        Err(LobbyError::NotFound)
    } else if !can_join(m[id]) {
        Err(LobbyError::Conflict)
    } else {
        Ok(())
    }
}

/// Stored contents after a join: only a pending record changes, to
/// `Ongoing`; a failed join mutates nothing.
pub open spec fn join_next(m: Map<Seq<char>, GameState>, id: Seq<char>) -> Map<
    Seq<char>,
    GameState,
> {
    if m.contains_key(id) && can_join(m[id]) {
        m.insert(id, GameState::Ongoing)
    } else {
        m
    }
}

/// Outcome of a status read: the stored state verbatim, or `NotFound`.
/// A pure read; there is no `status_next`.
pub open spec fn status_result(m: Map<Seq<char>, GameState>, id: Seq<char>) -> Result<
    GameState,
    LobbyError,
> {
    if m.contains_key(id) {
        Ok(m[id])
    } else {
        Err(LobbyError::NotFound)
    }
}

/// Outcome of a cancel: absent records are `NotFound`, terminal records
/// a `Conflict`, and a pending or ongoing record is cancelled.
pub open spec fn cancel_result(m: Map<Seq<char>, GameState>, id: Seq<char>) -> Result<
    (),
    LobbyError,
> {
    if !m.contains_key(id) {
        Err(LobbyError::NotFound)
    } else if !can_cancel(m[id]) {
        Err(LobbyError::Conflict)
    } else {
        Ok(())
    }
}

/// Stored contents after a cancel: only a pending or ongoing record
/// changes, to `Cancelled`; a failed cancel mutates nothing.
pub open spec fn cancel_next(m: Map<Seq<char>, GameState>, id: Seq<char>) -> Map<
    Seq<char>,
    GameState,
> {
    if m.contains_key(id) && can_cancel(m[id]) {
        m.insert(id, GameState::Cancelled)
    } else {
        m
    }
}

/// The check-mutate step of a join, on a record fetched from storage.
///
/// Given what the fetch returned, decides the outcome: the updated
/// record to persist, or the failure to report. A caller that drives a
/// remote store performs the fetch and the persist around this call; a
/// failed decision hands nothing back to persist, so no mutation occurs.
pub fn join_decision(fetched: Option<Game>) -> (r: Result<Game, LobbyError>)
    ensures
        fetched is None ==> r == Err::<Game, LobbyError>(LobbyError::NotFound),
        (fetched matches Some(g) ==> {
            &&& !can_join(g.state) ==> r == Err::<Game, LobbyError>(LobbyError::Conflict)
            &&& can_join(g.state) ==> (r matches Ok(u) && u.id == g.id && u.state
                == GameState::Ongoing)
        }),
{
    match fetched {
        None => Err(LobbyError::NotFound),
        Some(g) => {
            if g.state == GameState::Pending {
                Ok(Game { id: g.id, state: GameState::Ongoing })
            } else {
                Err(LobbyError::Conflict)
            }
        },
    }
}

/// The check-mutate step of a cancel, on a record fetched from storage.
pub fn cancel_decision(fetched: Option<Game>) -> (r: Result<Game, LobbyError>)
    ensures
        fetched is None ==> r == Err::<Game, LobbyError>(LobbyError::NotFound),
        (fetched matches Some(g) ==> {
            &&& !can_cancel(g.state) ==> r == Err::<Game, LobbyError>(LobbyError::Conflict)
            &&& can_cancel(g.state) ==> (r matches Ok(u) && u.id == g.id && u.state
                == GameState::Cancelled)
        }),
{
    match fetched {
        None => Err(LobbyError::NotFound),
        Some(g) => {
            match g.state {
                GameState::Pending | GameState::Ongoing => {
                    Ok(Game { id: g.id, state: GameState::Cancelled })
                },
                _ => Err(LobbyError::Conflict),
            }
        },
    }
}

/// The read step of a status request, on a record fetched from storage:
/// the stored state verbatim, or `NotFound`.
pub fn status_decision(fetched: Option<Game>) -> (r: Result<GameState, LobbyError>)
    ensures
        fetched is None ==> r == Err::<GameState, LobbyError>(LobbyError::NotFound),
        (fetched matches Some(g) ==> r == Ok::<GameState, LobbyError>(g.state)),
{
    match fetched {
        None => Err(LobbyError::NotFound),
        Some(g) => Ok(g.state),
    }
}

/// The check after a persist, on what the backend reports the
/// whole-record update wrote.
///
/// A backend that found nothing to replace — the record vanished
/// between the fetch and this write — is a failed update, and a failed
/// update surfaces as a storage failure, never silently ignored.
pub fn persist_decision(written: Option<Game>) -> (r: Result<(), LobbyError>)
    ensures
        written is None ==> r == Err::<(), LobbyError>(LobbyError::StorageFailure),
        written is Some ==> r == Ok::<(), LobbyError>(()),
{
    match written {
        None => Err(LobbyError::StorageFailure),
        Some(_) => Ok(()),
    }
}

/// The defensive check after a create, on the batch of records the
/// backend reports having written: exactly one record is well-formed and
/// yields its identifier; none is a storage failure; more than one is an
/// internal inconsistency.
pub fn create_decision(created: Vec<Game>) -> (r: Result<String, LobbyError>)
    ensures
        created@.len() == 0 ==> r == Err::<String, LobbyError>(LobbyError::StorageFailure),
        created@.len() == 1 ==> (r matches Ok(id) && id == created@[0].id),
        created@.len() > 1 ==> r == Err::<String, LobbyError>(LobbyError::InternalInconsistency),
{
    if created.len() == 0 {
        Err(LobbyError::StorageFailure)
    } else if created.len() > 1 {
        Err(LobbyError::InternalInconsistency)
    } else {
        let mut created = created;
        match created.pop() {
            Some(g) => Ok(g.id),
            None => Err(LobbyError::StorageFailure),
        }
    }
}

} // verus!
