//! The lobby record and its lifecycle states.

use vstd::prelude::*;

verus! {

/// The lifecycle state of a game lobby.
///
/// A lobby is created `Pending`, becomes `Ongoing` when a second party
/// joins, and may end up `Finished` (outside this library's scope) or
/// `Cancelled`. `Finished` and `Cancelled` are terminal: no operation
/// leaves them.
#[derive(Clone, Copy, Debug, PartialEq, Eq, Structural)]
pub enum GameState {
    Pending,
    Ongoing,
    Finished,
    Cancelled,
}

/// A persisted lobby record: an identifier, fixed at creation and used as
/// the sole lookup key, and the lifecycle state, the only field that later
/// operations ever change.
#[derive(Debug)]
pub struct Game {
    pub id: String,
    pub state: GameState,
}

impl Game {
    /// A freshly created lobby starts its life in `Pending`.
    pub fn new(id: String) -> (g: Game)
        ensures
            g.id == id,
            g.state == GameState::Pending,
    {
        Game { id, state: GameState::Pending }
    }
}

} // verus!
