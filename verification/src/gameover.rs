//! Game-over state systems: a short countdown on the game-over screen,
//! after which the session returns to the menu.

use vstd::prelude::*;
use crate::game::Timer;
use crate::states::GameState;

verus! {

/// Counts down how long the game-over screen stays up.
#[derive(Clone, Copy, Debug)]
pub struct GameOverTimer(pub Timer);

/// Game over state update: advances the game-over countdown and returns to
/// the menu when it finishes.
pub fn on_update(delta_ms: u64, timer: &mut GameOverTimer, state: &mut GameState)
    requires
        old(timer).0.wf(),
        *old(state) is GameOver,
    ensures
        final(timer).0 == old(timer).0.spec_tick(delta_ms as int),
        final(timer).0.wf(),
        *final(state) == (if old(timer).0.spec_just_finishes(delta_ms as int) {
            GameState::Menu
        } else {
            *old(state)
        }),
{
    if timer.0.tick(delta_ms) {
        *state = GameState::Menu;
    }
}

} // verus!
