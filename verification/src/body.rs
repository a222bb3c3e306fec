//! The controller's view of the physics body it drives.
//!
//! The body itself is owned by the physics collaborator; the controller
//! reads its position and writes its velocity, force and impulse
//! accumulators and its simulation mode. This module models exactly that
//! shared surface as plain values.

use vstd::prelude::*;
use crate::math::Vec2;

verus! {

/// How the physics collaborator simulates the body.
#[derive(Clone, Copy, Debug, PartialEq, Eq, Structural)]
pub enum BodyMode {
    /// Fully simulated: moved by forces, impulses and gravity.
    Dynamic,
    /// Not simulated: pinned in place, ignoring forces and gravity.
    Fixed,
    /// Moved only by direct position or velocity commands.
    Kinematic,
}

/// The mutable surface of one rigid body.
#[derive(Clone, Copy, Debug)]
pub struct Body {
    /// Centre position, in milliunits.
    pub position: Vec2,
    /// Linear velocity, in milliunits per second.
    pub velocity: Vec2,
    /// Force accumulator for the current tick.
    pub force: Vec2,
    /// Impulse accumulator for the current tick.
    pub impulse: Vec2,
    /// Simulation mode.
    pub mode: BodyMode,
}

impl Body {
    /// Position and velocity lie within the world's magnitude bounds.
    pub open spec fn wf(self) -> bool {
        &&& self.position.bounded()
        &&& self.velocity.bounded()
    }

    /// A dynamic body resting at `position`, with nothing accumulated.
    pub fn at_rest(position: Vec2) -> (body: Body)
        ensures
            body.position == position,
            body.velocity == (Vec2 { x: 0i64, y: 0i64 }),
            body.force == (Vec2 { x: 0i64, y: 0i64 }),
            body.impulse == (Vec2 { x: 0i64, y: 0i64 }),
            body.mode is Dynamic,
            position.bounded() ==> body.wf(),
    {
        Body {
            position,
            velocity: Vec2 { x: 0, y: 0 },
            force: Vec2 { x: 0, y: 0 },
            impulse: Vec2 { x: 0, y: 0 },
            mode: BodyMode::Dynamic,
        }
    }
}

} // verus!
