//! Input state and the systems that sample it into per-tick events.
//!
//! The input source reports, for each tick, which movement keys are held
//! and which command keys were just pressed on this tick (edge-triggered).
//! The sampling systems turn that raw state into a per-tick direction and a
//! per-tick list of edge events, which the decision systems then consume
//! exactly once.

use vstd::prelude::*;
use crate::math::Vec2;

verus! {

/// Raw keyboard state for one tick, as the input collaborator reports it.
#[derive(Clone, Copy, Debug)]
pub struct KeyInput {
    /// The move-left key is held.
    pub left_held: bool,
    /// The move-right key is held.
    pub right_held: bool,
    /// The jump key went from unpressed to pressed on this tick.
    pub jump_just_pressed: bool,
    /// The pause key went from unpressed to pressed on this tick.
    pub pause_just_pressed: bool,
}

impl Default for KeyInput {
    /// No key held, no key just pressed.
    fn default() -> (k: KeyInput)
        ensures
            !k.left_held,
            !k.right_held,
            !k.jump_just_pressed,
            !k.pause_just_pressed,
    {
        KeyInput { left_held: false, right_held: false, jump_just_pressed: false, pause_just_pressed: false }
    }
}

/// The horizontal direction the held movement keys ask for: right and left
/// contribute +1 and -1 and cancel when held together.
pub open spec fn key_direction(keys: KeyInput) -> int {
    (if keys.right_held { 1int } else { 0int }) - (if keys.left_held { 1int } else { 0int })
}

/// The per-tick movement intent derived from the keyboard.
#[derive(Clone, Copy, Debug)]
pub struct CharacterInput2D {
    /// Movement direction; the x component is -1, 0 or +1.
    pub direction: Vec2,
}

impl CharacterInput2D {
    /// The direction is a unit horizontal step or zero.
    pub open spec fn wf(self) -> bool {
        &&& -1 <= self.direction.x <= 1
        &&& self.direction.y == 0
    }
}

impl Default for CharacterInput2D {
    /// No movement asked for.
    fn default() -> (input: CharacterInput2D)
        ensures
            input.direction == (Vec2 { x: 0i64, y: 0i64 }),
            input.wf(),
    {
        CharacterInput2D { direction: Vec2 { x: 0, y: 0 } }
    }
}

/// The edge events one tick produced and has not yet consumed, as counts of
/// queued jump-requested and pause-toggled events.
#[derive(Clone, Copy, Debug)]
pub struct TickEvents {
    /// Queued jump-requested events.
    pub jump: u32,
    /// Queued pause-toggled events.
    pub pause: u32,
}

impl TickEvents {
    /// An empty event list, as each tick starts.
    pub fn new() -> (events: TickEvents)
        ensures
            events.jump == 0,
            events.pause == 0,
    {
        TickEvents { jump: 0, pause: 0 }
    }
}

/// Samples the held movement keys into the per-tick direction.
///
/// Left and right contribute -1 and +1 each and cancel to 0 when held
/// together; the vertical component is cleared.
pub fn platformer_2d_keyboard_input(keys: &KeyInput, character_input: &mut CharacterInput2D)
    ensures
        final(character_input).direction.x == key_direction(*keys),
        final(character_input).direction.y == 0,
        final(character_input).wf(),
{
    let mut x: i64 = 0;
    if keys.right_held {
        x = x + 1;
    }
    if keys.left_held {
        x = x - 1;
    }
    character_input.direction = Vec2 { x, y: 0 };
}

/// Emits a jump-requested event on the tick the jump key is pressed.
pub fn jump_input(keys: &KeyInput, events: &mut TickEvents)
    requires
        old(events).jump < u32::MAX,
    ensures
        final(events).jump == old(events).jump + (if keys.jump_just_pressed { 1int } else { 0int }),
        final(events).pause == old(events).pause,
{
    if keys.jump_just_pressed {
        events.jump = events.jump + 1;
    }
}

/// Emits a pause-toggled event on the tick the pause key is pressed, and
/// consumes the key edge so no other system sees it again.
pub fn pause_input(keys: &mut KeyInput, events: &mut TickEvents)
    requires
        old(events).pause < u32::MAX,
    ensures
        final(events).pause == old(events).pause + (if old(keys).pause_just_pressed { 1int } else { 0int }),
        final(events).jump == old(events).jump,
        !final(keys).pause_just_pressed,
        final(keys).left_held == old(keys).left_held,
        final(keys).right_held == old(keys).right_held,
        final(keys).jump_just_pressed == old(keys).jump_just_pressed,
{
    if keys.pause_just_pressed {
        keys.pause_just_pressed = false;
        events.pause = events.pause + 1;
    }
}

} // verus!
