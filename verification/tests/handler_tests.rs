//! The request handlers: status codes, bodies, and error messages.

use game_lobby::api::{handle_cancel, handle_create, handle_join, handle_status};
use game_lobby::errors::LobbyError;
use game_lobby::game::{Game, GameState};
use game_lobby::service::LobbyService;
use game_lobby::store::GameStore;

fn service_with(records: Vec<(&str, GameState)>) -> LobbyService {
    let mut store = GameStore::new();
    for (id, state) in records {
        let r = store.create(Game { id: id.to_owned(), state });
        assert!(r.is_ok());
    }
    LobbyService::with_store(store)
}

#[test]
fn create_replies_201_with_pending_body() {
    let mut svc = LobbyService::new();
    let (code, body) = handle_create(&mut svc).expect("create failed");
    assert_eq!(code, 201);
    assert_eq!(body.state, GameState::Pending);
    assert_eq!(body.trace_id.len(), 36);
    assert_eq!(svc.get_status(&body.game_id), Ok(GameState::Pending));
}

#[test]
fn two_creates_reply_with_distinct_identifiers_and_traces() {
    let mut svc = LobbyService::new();
    let (_, first) = handle_create(&mut svc).expect("create failed");
    let (_, second) = handle_create(&mut svc).expect("create failed");
    assert_ne!(first.game_id, second.game_id);
    assert_ne!(first.trace_id, second.trace_id);
}

#[test]
fn join_replies_200_with_message() {
    let mut svc = service_with(vec![("g", GameState::Pending)]);
    let (code, body) = handle_join(&mut svc, "g").expect("join failed");
    assert_eq!(code, 200);
    assert_eq!(body.message, "Joined the game.");
    assert_eq!(body.trace_id.len(), 36);
}

#[test]
fn join_on_missing_identifier_replies_404() {
    let mut svc = LobbyService::new();
    let (code, body) = handle_join(&mut svc, "lmao").expect_err("join succeeded");
    assert_eq!(code, 404);
    assert_eq!(body.error_message, "Couldn't find the game you're looking for.");
    assert_eq!(body.error_code, None);
}

#[test]
fn join_on_active_lobby_replies_409() {
    let mut svc = service_with(vec![("g", GameState::Ongoing)]);
    let (code, body) = handle_join(&mut svc, "g").expect_err("join succeeded");
    assert_eq!(code, 409);
    assert_eq!(body.error_message, "The game is already active or finished.");
    assert_eq!(body.error_code, None);
}

#[test]
fn status_replies_200_with_state_verbatim() {
    let svc = service_with(vec![("g", GameState::Finished)]);
    let (code, body) = handle_status(&svc, "g").expect("status failed");
    assert_eq!(code, 200);
    assert_eq!(body.game_status, GameState::Finished);
    assert_eq!(body.trace_id.len(), 36);
}

#[test]
fn status_on_missing_identifier_replies_404() {
    let svc = LobbyService::new();
    let (code, body) = handle_status(&svc, "nope").expect_err("status succeeded");
    assert_eq!(code, 404);
    assert_eq!(body.error_message, "Couldn't find the game you're looking for.");
    assert_eq!(body.error_code, None);
}

#[test]
fn cancel_replies_200() {
    let mut svc = service_with(vec![("g", GameState::Ongoing)]);
    let (code, body) = handle_cancel(&mut svc, "g").expect("cancel failed");
    assert_eq!(code, 200);
    assert_eq!(body.trace_id.len(), 36);
    assert_eq!(svc.get_status("g"), Ok(GameState::Cancelled));
}

#[test]
fn cancel_on_terminal_lobby_replies_409() {
    let mut svc = service_with(vec![("g", GameState::Cancelled)]);
    let (code, body) = handle_cancel(&mut svc, "g").expect_err("cancel succeeded");
    assert_eq!(code, 409);
    assert_eq!(
        body.error_message,
        "Game can not be cancelled. Either the game is already cancelled or it is already finished."
    );
    assert_eq!(body.error_code, None);
}

#[test]
fn cancel_on_missing_identifier_replies_404() {
    let mut svc = LobbyService::new();
    let (code, body) = handle_cancel(&mut svc, "nope").expect_err("cancel succeeded");
    assert_eq!(code, 404);
    assert_eq!(body.error_message, "Couldn't find the game you're looking for.");
    assert_eq!(body.error_code, None);
}

#[test]
fn post_game_response_carries_id_and_state() {
    let body = game_lobby::api::PostGameResponse {
        game_id: "g".to_owned(),
        state: GameState::Pending,
    };
    assert_eq!(body.game_id, "g");
    assert_eq!(body.state, GameState::Pending);
}

#[test]
fn http_status_by_error_kind() {
    assert_eq!(LobbyError::NotFound.http_status(), 404);
    assert_eq!(LobbyError::Conflict.http_status(), 409);
    assert_eq!(LobbyError::StorageFailure.http_status(), 500);
    assert_eq!(LobbyError::InternalInconsistency.http_status(), 500);
}

#[test]
fn error_code_only_for_internal_inconsistency() {
    assert_eq!(LobbyError::NotFound.error_code(), None);
    assert_eq!(LobbyError::Conflict.error_code(), None);
    assert_eq!(LobbyError::StorageFailure.error_code(), None);
    assert_eq!(LobbyError::InternalInconsistency.error_code(), Some(1));
}
