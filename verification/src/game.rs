//! Session resources: controller configuration and the session countdown.

use vstd::prelude::*;
use crate::math::Vec2;
use crate::states::GameState;

verus! {

/// Controller-wide physics configuration.
#[derive(Clone, Copy, Debug)]
pub struct GameConfig {
    /// Added gravity bonus for characters, in milliunits per second per
    /// second, applied while airborne.
    pub character_gravity: Vec2,
}

impl Default for GameConfig {
    /// No added character gravity.
    fn default() -> (config: GameConfig)
        ensures
            config.character_gravity == (Vec2 { x: 0i64, y: 0i64 }),
    {
        GameConfig { character_gravity: Vec2 { x: 0, y: 0 } }
    }
}

/// A non-repeating countdown measured in milliseconds. Once it reaches its
/// duration it stays finished.
#[derive(Clone, Copy, Debug)]
pub struct Timer {
    /// Total duration, in milliseconds.
    pub duration_ms: u64,
    /// Time accumulated so far, in milliseconds; never beyond the duration.
    pub elapsed_ms: u64,
}

impl Timer {
    /// The accumulated time never exceeds the duration.
    pub open spec fn wf(self) -> bool {
        self.elapsed_ms <= self.duration_ms
    }

    /// The timer after accumulating `delta_ms` more milliseconds, capped at
    /// the duration.
    pub open spec fn spec_tick(self, delta_ms: int) -> Timer {
        if self.elapsed_ms + delta_ms >= self.duration_ms {
            Timer { duration_ms: self.duration_ms, elapsed_ms: self.duration_ms }
        } else {
            Timer { duration_ms: self.duration_ms, elapsed_ms: (self.elapsed_ms + delta_ms) as u64 }
        }
    }

    /// Whether accumulating `delta_ms` makes the timer reach its duration
    /// on exactly this tick.
    pub open spec fn spec_just_finishes(self, delta_ms: int) -> bool {
        self.elapsed_ms < self.duration_ms && self.elapsed_ms + delta_ms >= self.duration_ms
    }

    /// A fresh timer that runs for `seconds` seconds.
    pub fn from_seconds(seconds: u64) -> (timer: Timer)
        requires
            seconds <= u64::MAX / 1000,
        ensures
            timer.duration_ms == seconds * 1000,
            timer.elapsed_ms == 0,
            timer.wf(),
    {
        Timer { duration_ms: seconds * 1000, elapsed_ms: 0 }
    }

    /// Accumulates `delta_ms` milliseconds and reports whether the timer
    /// finished on exactly this call.
    pub fn tick(&mut self, delta_ms: u64) -> (just_finished: bool)
        requires
            old(self).wf(),
        ensures
            *final(self) == old(self).spec_tick(delta_ms as int),
            just_finished == old(self).spec_just_finishes(delta_ms as int),
            final(self).wf(),
    {
        let remaining = self.duration_ms - self.elapsed_ms;
        if delta_ms >= remaining {
            self.elapsed_ms = self.duration_ms;
            remaining > 0
        } else {
            self.elapsed_ms = self.elapsed_ms + delta_ms;
            false
        }
    }

    /// Whether the timer has reached its duration.
    pub fn finished(&self) -> (r: bool)
        ensures
            r == (self.elapsed_ms >= self.duration_ms),
    {
        self.elapsed_ms >= self.duration_ms
    }

    /// Whole seconds left until the timer finishes, rounded down, for
    /// display.
    pub fn remaining_seconds(&self) -> (r: u64)
        requires
            self.wf(),
        ensures
            r == (self.duration_ms - self.elapsed_ms) / 1000,
    {
        (self.duration_ms - self.elapsed_ms) / 1000
    }
}

/// Main per-session game state: the session countdown and a pause latch
/// that halts it.
#[derive(Clone, Copy, Debug)]
pub struct Game {
    /// Counts down the session; when it finishes, the session is over.
    pub timer: Timer,
    /// While set, the countdown does not advance.
    pub paused: bool,
}

impl Default for Game {
    /// A game with a zero-length countdown and the countdown running.
    fn default() -> (game: Game)
        ensures
            game.timer.duration_ms == 0,
            game.timer.elapsed_ms == 0,
            !game.paused,
            game.timer.wf(),
    {
        Game { timer: Timer { duration_ms: 0, elapsed_ms: 0 }, paused: false }
    }
}

/// Main game update: advances the session countdown unless the game is
/// paused, and ends the session when the countdown finishes.
pub fn on_update(delta_ms: u64, game: &mut Game, state: &mut GameState)
    requires
        old(game).timer.wf(),
        *old(state) is Game,
    ensures
        old(game).paused ==> *final(game) == *old(game) && *final(state) == *old(state),
        !old(game).paused ==> {
            &&& final(game).timer == old(game).timer.spec_tick(delta_ms as int)
            &&& final(game).paused == old(game).paused
            &&& *final(state) == (if old(game).timer.spec_just_finishes(delta_ms as int) {
                GameState::GameOver
            } else {
                *old(state)
            })
        },
        final(game).timer.wf(),
{
    if game.paused {
        return ;
    }
    if game.timer.tick(delta_ms) {
        *state = GameState::GameOver;
    }
}

} // verus!
