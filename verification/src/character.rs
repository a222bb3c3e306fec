//! The player character component.

use vstd::prelude::*;
use crate::math::{Vec2, AIR_CONTROL_ONE, MAX_UNITS};

verus! {

/// Movement configuration and per-tick ground state of one character.
#[derive(Clone, Copy, Debug)]
pub struct Character {
    /// How fast the character moves, in milliunits per second.
    pub speed: u64,
    /// What share of the speed is available for air control, as a
    /// fixed-point factor in `[0, AIR_CONTROL_ONE]`.
    pub air_control_factor: u64,
    /// The impulse applied for one jump, in milliunits.
    pub jump_force: Vec2,
    /// Whether the character stood on the ground at the last ground check.
    pub grounded: bool,
}

impl Character {
    /// The configuration lies within the world's magnitude bounds.
    pub open spec fn wf(self) -> bool {
        &&& self.speed <= MAX_UNITS
        &&& self.air_control_factor <= AIR_CONTROL_ONE
        &&& self.jump_force.bounded()
    }

    /// The horizontal speed the character may currently use: the full
    /// configured speed on the ground, the air-control share of it in the
    /// air.
    pub open spec fn effective_speed(self) -> int {
        if self.grounded {
            self.speed as int
        } else {
            (self.speed * self.air_control_factor) as int / (AIR_CONTROL_ONE as int)
        }
    }
}

impl Default for Character {
    /// A character at rest: no speed, no air control, no jump force, not
    /// grounded.
    fn default() -> (c: Character)
        ensures
            c.speed == 0,
            c.air_control_factor == 0,
            c.jump_force == (Vec2 { x: 0i64, y: 0i64 }),
            !c.grounded,
            c.wf(),
    {
        Character { speed: 0, air_control_factor: 0, jump_force: Vec2 { x: 0, y: 0 }, grounded: false }
    }
}

/// The effective speed never exceeds the configured speed, and equals it on
/// the ground or under full air control.
pub proof fn lemma_effective_speed_bounds(c: Character)
    requires
        c.wf(),
    ensures
        0 <= c.effective_speed() <= c.speed,
        c.grounded ==> c.effective_speed() == c.speed,
        c.air_control_factor == AIR_CONTROL_ONE ==> c.effective_speed() == c.speed,
{
    if !c.grounded {
        let s = c.speed as int;
        let f = c.air_control_factor as int;
        assert(s * f <= s * (AIR_CONTROL_ONE as int)) by (nonlinear_arith)
            requires
                0 <= s,
                f <= AIR_CONTROL_ONE as int,
        ;
        assert(0 <= s * f) by (nonlinear_arith)
            requires
                0 <= s,
                0 <= f,
        ;
        vstd::arithmetic::div_mod::lemma_div_is_ordered(
            s * f,
            s * (AIR_CONTROL_ONE as int),
            AIR_CONTROL_ONE as int,
        );
        vstd::arithmetic::div_mod::lemma_div_by_multiple(s, AIR_CONTROL_ONE as int);
        vstd::arithmetic::div_mod::lemma_div_pos_is_pos(s * f, AIR_CONTROL_ONE as int);
    }
}

} // verus!
