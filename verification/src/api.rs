//! Response bodies and the request handlers.
//!
//! Each handler draws a fresh trace token, runs one lobby operation,
//! and maps the outcome to an HTTP status code and a response body.
//! Handlers hold no business logic of their own: every branch beyond
//! "which outcome was it" lives in the lifecycle model, and the
//! contracts here pin the code and the body for each outcome.

use vstd::prelude::*;

use crate::errors::{spec_error_code, spec_http_status, LobbyError};
use crate::game::GameState;
use crate::ids;
use crate::lifecycle::{cancel_next, cancel_result, join_next, join_result, status_result};
use crate::service::LobbyService;

verus! {

/// Response body of a successful lobby creation: the new identifier and
/// its initial state.
#[derive(Debug)]
pub struct PostGameResponse {
    pub game_id: String,
    pub state: GameState,
}

/// Response body of a successful create, with the request's trace token.
#[derive(Debug)]
pub struct CreateGame {
    pub trace_id: String,
    pub game_id: String,
    pub state: GameState,
}

/// Response body of a successful join.
#[derive(Debug)]
pub struct JoinGame {
    pub trace_id: String,
    pub message: String,
}

/// Response body of a successful status read.
#[derive(Debug)]
pub struct GetGameStatus {
    pub trace_id: String,
    pub game_status: GameState,
}

/// Response body of a successful cancel.
#[derive(Debug)]
pub struct CancelGame {
    pub trace_id: String,
}

/// Error body of every failed request: the trace token for correlating
/// with server logs, a human-readable message, and the optional code
/// reserved for internal-consistency faults.
#[derive(Debug)]
pub struct ErrorMessage {
    pub trace_id: String,
    pub error_message: String,
    pub error_code: Option<u8>,
}

/// Message of a successful join.
pub open spec fn joined_msg() -> Seq<char> {
    "Joined the game."@
}

/// Message reported when no record exists for the identifier.
pub open spec fn not_found_msg() -> Seq<char> {
    "Couldn't find the game you're looking for."@
}

/// Message of a join refused by the record's state.
pub open spec fn join_conflict_msg() -> Seq<char> {
    "The game is already active or finished."@
}

/// Message of a cancel refused by the record's state.
pub open spec fn cancel_conflict_msg() -> Seq<char> {
    "Game can not be cancelled. Either the game is already cancelled or it is already finished."@
}

/// Message of a create the gateway refused.
pub open spec fn create_failure_msg() -> Seq<char> {
    "Couldn't create the lobby"@
}

/// Fallback message for faults whose detail is not client-visible.
pub open spec fn fault_msg() -> Seq<char> {
    "Something went wrong."@
}

/// The message a failed join reports, by failure kind.
pub open spec fn join_error_msg(e: LobbyError) -> Seq<char> {
    match e {
        LobbyError::NotFound => not_found_msg(),
        LobbyError::Conflict => join_conflict_msg(),
        LobbyError::StorageFailure => fault_msg(),
        LobbyError::InternalInconsistency => fault_msg(),
    }
}

/// The message a failed status read reports, by failure kind.
pub open spec fn status_error_msg(e: LobbyError) -> Seq<char> {
    match e {
        LobbyError::NotFound => not_found_msg(),
        LobbyError::Conflict => fault_msg(),
        LobbyError::StorageFailure => fault_msg(),
        LobbyError::InternalInconsistency => fault_msg(),
    }
}

/// The message a failed cancel reports, by failure kind.
pub open spec fn cancel_error_msg(e: LobbyError) -> Seq<char> {
    match e {
        LobbyError::NotFound => not_found_msg(),
        LobbyError::Conflict => cancel_conflict_msg(),
        LobbyError::StorageFailure => fault_msg(),
        LobbyError::InternalInconsistency => fault_msg(),
    }
}

/// Builds the error body of a failed join.
pub fn join_error_body(trace_id: String, e: LobbyError) -> (em: ErrorMessage)
    ensures
        em.trace_id == trace_id,
        em.error_message@ == join_error_msg(e),
        em.error_code == spec_error_code(e),
{
    let error_message = match e {
        LobbyError::NotFound => "Couldn't find the game you're looking for.".to_owned(),
        LobbyError::Conflict => "The game is already active or finished.".to_owned(),
        LobbyError::StorageFailure => "Something went wrong.".to_owned(),
        LobbyError::InternalInconsistency => "Something went wrong.".to_owned(),
    };
    let error_code = e.error_code();
    ErrorMessage { trace_id, error_message, error_code }
}

/// Builds the error body of a failed status read.
pub fn status_error_body(trace_id: String, e: LobbyError) -> (em: ErrorMessage)
    ensures
        em.trace_id == trace_id,
        em.error_message@ == status_error_msg(e),
        em.error_code == spec_error_code(e),
{
    let error_message = match e {
        LobbyError::NotFound => "Couldn't find the game you're looking for.".to_owned(),
        LobbyError::Conflict => "Something went wrong.".to_owned(),
        LobbyError::StorageFailure => "Something went wrong.".to_owned(),
        LobbyError::InternalInconsistency => "Something went wrong.".to_owned(),
    };
    let error_code = e.error_code();
    ErrorMessage { trace_id, error_message, error_code }
}

/// Builds the error body of a failed cancel.
pub fn cancel_error_body(trace_id: String, e: LobbyError) -> (em: ErrorMessage)
    ensures
        em.trace_id == trace_id,
        em.error_message@ == cancel_error_msg(e),
        em.error_code == spec_error_code(e),
{
    let error_message = match e {
        LobbyError::NotFound => "Couldn't find the game you're looking for.".to_owned(),
        LobbyError::Conflict => (
        "Game can not be cancelled. Either the game is already cancelled or it is already finished."
        ).to_owned(),
        LobbyError::StorageFailure => "Something went wrong.".to_owned(),
        LobbyError::InternalInconsistency => "Something went wrong.".to_owned(),
    };
    let error_code = e.error_code();
    ErrorMessage { trace_id, error_message, error_code }
}

/// Handles a create request: draws a trace token, creates a lobby under
/// a fresh random identifier, and reports 201 with the new identifier
/// and its `Pending` state, or 500 if the gateway refused the write.
/// As for `LobbyService::create_game`, success is owed whenever no
/// stored identifier has the draw's 36-character length.
pub fn handle_create(svc: &mut LobbyService) -> (reply: Result<(u16, CreateGame), (
    u16,
    ErrorMessage,
)>)
    requires
        old(svc).wf(),
    ensures
        final(svc).wf(),
        (reply matches Ok((c, b)) ==> c == 201 && b.state == GameState::Pending
            && !old(svc)@.contains_key(b.game_id@)
            && final(svc)@ == old(svc)@.insert(b.game_id@, GameState::Pending)
            && b.trace_id@.len() == 36),
        (reply matches Err((c, em)) ==> c == 500 && em.error_message@ == create_failure_msg()
            && em.error_code is None && final(svc)@ == old(svc)@ && em.trace_id@.len() == 36),
        (forall|k: Seq<char>| old(svc)@.contains_key(k) ==> k.len() != 36) ==> reply is Ok,
{
    let trace_id = ids::fresh_token();
    match svc.create_game() {
        Ok(game_id) => Ok((201, CreateGame { trace_id, game_id, state: GameState::Pending })),
        Err(_) => {
            let error_message = "Couldn't create the lobby".to_owned();
            Err((500, ErrorMessage { trace_id, error_message, error_code: None }))
        },
    }
}

/// Handles a join request: draws a trace token, joins the lobby under
/// `id`, and reports 200, 404 or 409 with the matching body.
pub fn handle_join(svc: &mut LobbyService, id: &str) -> (reply: Result<(u16, JoinGame), (
    u16,
    ErrorMessage,
)>)
    requires
        old(svc).wf(),
    ensures
        final(svc).wf(),
        final(svc)@ == join_next(old(svc)@, id@),
        (join_result(old(svc)@, id@) is Ok ==> (reply matches Ok((c, b)) && c == 200
            && b.message@ == joined_msg() && b.trace_id@.len() == 36)),
        (join_result(old(svc)@, id@) matches Err(e) ==> (reply matches Err((c, em)) && c
            == spec_http_status(e) && em.error_message@ == join_error_msg(e) && em.error_code
            == spec_error_code(e) && em.trace_id@.len() == 36)),
{
    let trace_id = ids::fresh_token();
    match svc.join_game(id) {
        Ok(()) => {
            let message = "Joined the game.".to_owned();
            Ok((200, JoinGame { trace_id, message }))
        },
        Err(e) => {
            let status = e.http_status();
            Err((status, join_error_body(trace_id, e)))
        },
    }
}

/// Handles a status request: draws a trace token, reads the lobby under
/// `id`, and reports 200 with the stored state verbatim, or 404.
pub fn handle_status(svc: &LobbyService, id: &str) -> (reply: Result<(u16, GetGameStatus), (
    u16,
    ErrorMessage,
)>)
    requires
        svc.wf(),
    ensures
        (status_result(svc@, id@) matches Ok(s) ==> (reply matches Ok((c, b)) && c == 200
            && b.game_status == s && b.trace_id@.len() == 36)),
        (status_result(svc@, id@) matches Err(e) ==> (reply matches Err((c, em)) && c
            == spec_http_status(e) && em.error_message@ == status_error_msg(e) && em.error_code
            == spec_error_code(e) && em.trace_id@.len() == 36)),
{
    let trace_id = ids::fresh_token();
    match svc.get_status(id) {
        Ok(game_status) => Ok((200, GetGameStatus { trace_id, game_status })),
        Err(e) => {
            let status = e.http_status();
            Err((status, status_error_body(trace_id, e)))
        },
    }
}

/// Handles a cancel request: draws a trace token, cancels the lobby
/// under `id`, and reports 200, 404 or 409 with the matching body.
pub fn handle_cancel(svc: &mut LobbyService, id: &str) -> (reply: Result<(u16, CancelGame), (
    u16,
    ErrorMessage,
)>)
    requires
        old(svc).wf(),
    ensures
        final(svc).wf(),
        final(svc)@ == cancel_next(old(svc)@, id@),
        (cancel_result(old(svc)@, id@) is Ok ==> (reply matches Ok((c, b)) && c == 200
            && b.trace_id@.len() == 36)),
        (cancel_result(old(svc)@, id@) matches Err(e) ==> (reply matches Err((c, em)) && c
            == spec_http_status(e) && em.error_message@ == cancel_error_msg(e) && em.error_code
            == spec_error_code(e) && em.trace_id@.len() == 36)),
{
    let trace_id = ids::fresh_token();
    match svc.cancel_game(id) {
        Ok(()) => Ok((200, CancelGame { trace_id })),
        Err(e) => {
            let status = e.http_status();
            Err((status, cancel_error_body(trace_id, e)))
        },
    }
}

} // verus!
