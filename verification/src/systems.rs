//! The per-tick systems of the controller.
//!
//! This module holds the session-wide pause systems; the character
//! decision systems and the simple rigid-body integrator live in the
//! submodules.

pub mod character;
pub mod physics;

use vstd::prelude::*;
use crate::body::{Body, BodyMode};
use crate::input::TickEvents;
use crate::states::GameState;

verus! {

/// The session state and the player body's simulation mode agree: the body
/// is frozen exactly while the session is paused, and simulated dynamically
/// while the game runs.
pub open spec fn pause_consistent(state: GameState, mode: BodyMode) -> bool {
    &&& state is Paused ==> mode is Fixed
    &&& state is Game ==> mode is Dynamic
}

/// One pause toggle applied to the session state and the player body's
/// simulation mode: entering pause freezes the body so gravity and forces
/// no longer move it, leaving pause resumes dynamic simulation.
pub open spec fn pause_toggled(state: GameState, mode: BodyMode) -> (GameState, BodyMode) {
    if state is Game {
        (GameState::Paused, BodyMode::Fixed)
    } else if state is Paused {
        (GameState::Game, BodyMode::Dynamic)
    } else {
        (state, mode)
    }
}

/// Handles pause events while the game runs: one or more queued
/// pause-toggled events are drained together and pause the session once,
/// freezing the player body.
pub fn pause(events: &mut TickEvents, state: &mut GameState, body: &mut Body)
    requires
        *old(state) is Game,
    ensures
        final(events).pause == 0,
        final(events).jump == old(events).jump,
        old(events).pause == 0 ==> *final(state) == *old(state) && *final(body) == *old(body),
        old(events).pause > 0 ==> {
            &&& (*final(state), final(body).mode) == pause_toggled(*old(state), old(body).mode)
            &&& *final(body) == (Body { mode: BodyMode::Fixed, ..*old(body) })
        },
{
    if events.pause > 0 {
        events.pause = 0;
        body.mode = BodyMode::Fixed;
        *state = GameState::Paused;
    }
}

/// Handles pause events while the game is paused: one or more queued
/// pause-toggled events are drained together and resume the session once,
/// restoring dynamic simulation of the player body.
pub fn unpause(events: &mut TickEvents, state: &mut GameState, body: &mut Body)
    requires
        *old(state) is Paused,
    ensures
        final(events).pause == 0,
        final(events).jump == old(events).jump,
        old(events).pause == 0 ==> *final(state) == *old(state) && *final(body) == *old(body),
        old(events).pause > 0 ==> {
            &&& (*final(state), final(body).mode) == pause_toggled(*old(state), old(body).mode)
            &&& *final(body) == (Body { mode: BodyMode::Dynamic, ..*old(body) })
        },
{
    if events.pause > 0 {
        events.pause = 0;
        body.mode = BodyMode::Dynamic;
        *state = GameState::Game;
    }
}

/// Law: toggling pause twice in immediate succession returns the pause
/// flag and the body simulation mode to their original values, provided
/// the two started out consistent (running with a dynamic body, or paused
/// with a frozen one).
pub proof fn lemma_pause_round_trip(state: GameState, mode: BodyMode)
    requires
        state is Game || state is Paused,
        pause_consistent(state, mode),
    ensures
        ({
            let once = pause_toggled(state, mode);
            pause_toggled(once.0, once.1) == (state, mode)
        }),
{
}

} // verus!
