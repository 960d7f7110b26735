//! Lifecycle scenarios run against the lobby service and its gateway.

use game_lobby::errors::LobbyError;
use game_lobby::game::{Game, GameState};
use game_lobby::lifecycle::{
    cancel_decision, create_decision, join_decision, persist_decision, status_decision,
};
use game_lobby::service::LobbyService;
use game_lobby::store::GameStore;

fn service_with(records: Vec<(&str, GameState)>) -> LobbyService {
    let mut store = GameStore::new();
    for (id, state) in records {
        let r = store.create(Game { id: id.to_owned(), state });
        assert!(r.is_ok());
    }
    LobbyService::with_store(store)
}

#[test]
fn create_then_status_is_pending() {
    let mut svc = LobbyService::new();
    let id = svc.create_game().expect("create failed");
    assert_eq!(svc.get_status(&id), Ok(GameState::Pending));
}

#[test]
fn join_then_status_is_ongoing_and_second_join_conflicts() {
    let mut svc = LobbyService::new();
    let id = svc.create_game().expect("create failed");
    assert_eq!(svc.join_game(&id), Ok(()));
    assert_eq!(svc.get_status(&id), Ok(GameState::Ongoing));
    assert_eq!(svc.join_game(&id), Err(LobbyError::Conflict));
    assert_eq!(svc.get_status(&id), Ok(GameState::Ongoing));
}

#[test]
fn cancel_then_status_is_cancelled_and_second_cancel_conflicts() {
    let mut svc = LobbyService::new();
    let id = svc.create_game().expect("create failed");
    assert_eq!(svc.cancel_game(&id), Ok(()));
    assert_eq!(svc.get_status(&id), Ok(GameState::Cancelled));
    assert_eq!(svc.cancel_game(&id), Err(LobbyError::Conflict));
}

#[test]
fn join_on_never_created_identifier_is_not_found() {
    let mut svc = LobbyService::new();
    assert_eq!(svc.join_game("lmao"), Err(LobbyError::NotFound));
}

#[test]
fn create_returns_previously_unseen_identifiers() {
    let mut svc = LobbyService::new();
    let first = svc.create_game().expect("create failed");
    let second = svc.create_game().expect("create failed");
    assert_ne!(first, second);
    assert_eq!(svc.get_status(&first), Ok(GameState::Pending));
    assert_eq!(svc.get_status(&second), Ok(GameState::Pending));
}

#[test]
fn create_under_taken_identifier_is_a_storage_failure() {
    let mut svc = LobbyService::new();
    let id = svc.create_game().expect("create failed");
    assert_eq!(svc.join_game(&id), Ok(()));
    let r = svc.create_game_with_id(id.clone());
    assert_eq!(r, Err(LobbyError::StorageFailure));
    // The refused write left the record untouched.
    assert_eq!(svc.get_status(&id), Ok(GameState::Ongoing));
}

#[test]
fn join_on_non_pending_states_fails_closed() {
    for state in [GameState::Ongoing, GameState::Finished, GameState::Cancelled] {
        let mut svc = service_with(vec![("g", state)]);
        assert_eq!(svc.join_game("g"), Err(LobbyError::Conflict));
        assert_eq!(svc.get_status("g"), Ok(state));
    }
}

#[test]
fn cancel_on_terminal_states_conflicts_and_changes_nothing() {
    for state in [GameState::Finished, GameState::Cancelled] {
        let mut svc = service_with(vec![("g", state)]);
        assert_eq!(svc.cancel_game("g"), Err(LobbyError::Conflict));
        assert_eq!(svc.get_status("g"), Ok(state));
    }
}

#[test]
fn cancel_on_active_states_cancels() {
    for state in [GameState::Pending, GameState::Ongoing] {
        let mut svc = service_with(vec![("g", state)]);
        assert_eq!(svc.cancel_game("g"), Ok(()));
        assert_eq!(svc.get_status("g"), Ok(GameState::Cancelled));
    }
}

#[test]
fn every_operation_on_missing_identifier_is_not_found() {
    let mut svc = service_with(vec![("other", GameState::Pending)]);
    assert_eq!(svc.get_status("missing"), Err(LobbyError::NotFound));
    assert_eq!(svc.join_game("missing"), Err(LobbyError::NotFound));
    assert_eq!(svc.cancel_game("missing"), Err(LobbyError::NotFound));
    // The untouched record is still there, still pending.
    assert_eq!(svc.get_status("other"), Ok(GameState::Pending));
}

#[test]
fn status_reports_each_state_verbatim() {
    for state in [
        GameState::Pending,
        GameState::Ongoing,
        GameState::Finished,
        GameState::Cancelled,
    ] {
        let svc = service_with(vec![("g", state)]);
        assert_eq!(svc.get_status("g"), Ok(state));
    }
}

#[test]
fn gateway_fetch_returns_the_stored_record() {
    let mut store = GameStore::new();
    store
        .create(Game { id: "a".to_owned(), state: GameState::Ongoing })
        .expect("create failed");
    let g = store.fetch("a").expect("fetch failed");
    assert_eq!(g.id, "a");
    assert_eq!(g.state, GameState::Ongoing);
    assert_eq!(
        store.fetch("b").map(|g| g.state),
        Err(LobbyError::NotFound)
    );
}

#[test]
fn gateway_replace_overwrites_by_identifier() {
    let mut store = GameStore::new();
    store
        .create(Game { id: "a".to_owned(), state: GameState::Pending })
        .expect("create failed");
    let r = store.replace(Game { id: "a".to_owned(), state: GameState::Finished });
    assert_eq!(r, Ok(()));
    assert_eq!(store.fetch("a").unwrap().state, GameState::Finished);
    let vanished = store.replace(Game { id: "b".to_owned(), state: GameState::Ongoing });
    assert_eq!(vanished, Err(LobbyError::NotFound));
}

#[test]
fn join_decision_on_each_fetch_outcome() {
    assert_eq!(
        join_decision(None).map(|g| g.state),
        Err(LobbyError::NotFound)
    );
    let joined = join_decision(Some(Game { id: "a".to_owned(), state: GameState::Pending }))
        .expect("join refused");
    assert_eq!(joined.id, "a");
    assert_eq!(joined.state, GameState::Ongoing);
    for state in [GameState::Ongoing, GameState::Finished, GameState::Cancelled] {
        let r = join_decision(Some(Game { id: "a".to_owned(), state }));
        assert_eq!(r.map(|g| g.state), Err(LobbyError::Conflict));
    }
}

#[test]
fn cancel_decision_on_each_fetch_outcome() {
    assert_eq!(
        cancel_decision(None).map(|g| g.state),
        Err(LobbyError::NotFound)
    );
    for state in [GameState::Pending, GameState::Ongoing] {
        let cancelled = cancel_decision(Some(Game { id: "a".to_owned(), state }))
            .expect("cancel refused");
        assert_eq!(cancelled.id, "a");
        assert_eq!(cancelled.state, GameState::Cancelled);
    }
    for state in [GameState::Finished, GameState::Cancelled] {
        let r = cancel_decision(Some(Game { id: "a".to_owned(), state }));
        assert_eq!(r.map(|g| g.state), Err(LobbyError::Conflict));
    }
}

#[test]
fn status_decision_on_each_fetch_outcome() {
    assert_eq!(status_decision(None), Err(LobbyError::NotFound));
    assert_eq!(
        status_decision(Some(Game { id: "a".to_owned(), state: GameState::Finished })),
        Ok(GameState::Finished)
    );
}

#[test]
fn persist_decision_surfaces_a_vanished_record_as_storage_failure() {
    assert_eq!(persist_decision(None), Err(LobbyError::StorageFailure));
    let written = Game { id: "a".to_owned(), state: GameState::Ongoing };
    assert_eq!(persist_decision(Some(written)), Ok(()));
}

#[test]
fn create_decision_checks_the_reported_batch() {
    assert_eq!(
        create_decision(Vec::new()),
        Err(LobbyError::StorageFailure)
    );
    let one = vec![Game { id: "a".to_owned(), state: GameState::Pending }];
    assert_eq!(create_decision(one), Ok("a".to_owned()));
    let two = vec![
        Game { id: "a".to_owned(), state: GameState::Pending },
        Game { id: "b".to_owned(), state: GameState::Pending },
    ];
    assert_eq!(create_decision(two), Err(LobbyError::InternalInconsistency));
}
