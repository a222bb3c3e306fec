//! Game states for one session.

use vstd::prelude::*;

verus! {

/// The game state: the menu, the running game, the game paused, or the
/// game-over screen.
#[derive(Debug, Copy, Clone, Eq, PartialEq, Hash, Structural)]
pub enum GameState {
    Menu,
    Game,
    Paused,
    GameOver,
}

impl GameState {
    /// Whether the session is paused: movement, jump and the session timer
    /// are suppressed while this holds.
    pub open spec fn paused(self) -> bool {
        self is Paused
    }
}

} // verus!
