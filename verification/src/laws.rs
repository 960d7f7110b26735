//! The lifecycle laws, proved over the abstract state machine.
//!
//! Every operation's contract is phrased as the `*_result` and `*_next`
//! functions of the lifecycle model, so each law proved here of the
//! model holds of any sequence of the executable operations.

use vstd::prelude::*;

use crate::errors::LobbyError;
use crate::game::GameState;
use crate::lifecycle::{can_cancel, cancel_next, cancel_result, create_next, create_result,
    is_terminal, join_next, join_result, status_result};

verus! {

/// Creating a lobby under an identifier not yet taken stores exactly
/// that lobby, in state `Pending`, and an immediate status read of the
/// identifier reports `Pending`.
pub proof fn create_then_status_pending(m: Map<Seq<char>, GameState>, id: Seq<char>)
    requires
        !m.contains_key(id),
    ensures
        create_result(m, id) == Ok::<(), LobbyError>(()),
        create_next(m, id) == m.insert(id, GameState::Pending),
        status_result(create_next(m, id), id) == Ok::<GameState, LobbyError>(GameState::Pending),
{
}

/// Joining is exclusive: of two join attempts on a pending lobby, run
/// one after the other, exactly the first succeeds; the second is a
/// conflict, and the stored state ends — and stays — `Ongoing`.
///
/// This is the sequential reading. Two requests that interleave their
/// fetch and persist steps against a remote backend are arbitrated by
/// that backend alone, and both may observe success; the stored state
/// still ends `Ongoing`.
pub proof fn join_is_exclusive(m: Map<Seq<char>, GameState>, id: Seq<char>)
    requires
        m.contains_key(id),
        m[id] == GameState::Pending,
    ensures
        join_result(m, id) == Ok::<(), LobbyError>(()),
        join_next(m, id)[id] == GameState::Ongoing,
        join_result(join_next(m, id), id) == Err::<(), LobbyError>(LobbyError::Conflict),
        join_next(join_next(m, id), id) == join_next(m, id),
{
}

/// A join on a lobby in any state but `Pending` fails closed: the
/// outcome is a conflict and the stored contents are untouched.
pub proof fn join_non_pending_fails_closed(m: Map<Seq<char>, GameState>, id: Seq<char>)
    requires
        m.contains_key(id),
        m[id] != GameState::Pending,
    ensures
        join_result(m, id) == Err::<(), LobbyError>(LobbyError::Conflict),
        join_next(m, id) == m,
{
}

/// A cancel on a terminal lobby — `Finished` or `Cancelled` — is a
/// conflict and leaves the stored contents untouched.
pub proof fn cancel_terminal_guard(m: Map<Seq<char>, GameState>, id: Seq<char>)
    requires
        m.contains_key(id),
        is_terminal(m[id]),
    ensures
        cancel_result(m, id) == Err::<(), LobbyError>(LobbyError::Conflict),
        cancel_next(m, id) == m,
{
}

/// A cancel on a pending or ongoing lobby always succeeds and stores
/// `Cancelled` under the identifier, touching nothing else.
pub proof fn cancel_active_cancels(m: Map<Seq<char>, GameState>, id: Seq<char>)
    requires
        m.contains_key(id),
        can_cancel(m[id]),
    ensures
        cancel_result(m, id) == Ok::<(), LobbyError>(()),
        cancel_next(m, id) == m.insert(id, GameState::Cancelled),
        cancel_next(m, id)[id] == GameState::Cancelled,
{
}

/// Every operation on an identifier that no record holds reports
/// `NotFound` — never any other failure — and mutates nothing.
pub proof fn absent_id_uniform_not_found(m: Map<Seq<char>, GameState>, id: Seq<char>)
    requires
        !m.contains_key(id),
    ensures
        status_result(m, id) == Err::<GameState, LobbyError>(LobbyError::NotFound),
        join_result(m, id) == Err::<(), LobbyError>(LobbyError::NotFound),
        cancel_result(m, id) == Err::<(), LobbyError>(LobbyError::NotFound),
        join_next(m, id) == m,
        cancel_next(m, id) == m,
{
}

} // verus!
