//! A small self-contained rigid-body component with explicit Euler
//! integration, for bodies the external physics solver does not own.

use vstd::prelude::*;
use crate::math::{mul_ms, scaled_by_ms, Vec2, MAX_TICK_MS, MAX_UNITS};

verus! {

/// A rigid body integrated by [`crate::systems::physics`]: acceleration
/// accumulates forces, velocity integrates acceleration, and the owning
/// transform integrates velocity.
#[derive(Clone, Copy, Debug)]
pub struct RigidBody2D {
    /// Kinematic bodies are moved directly and skip physics integration.
    pub kinematic: bool,
    /// Acceleration accumulator, in milliunits per second per second.
    pub acceleration: Vec2,
    /// Linear velocity, in milliunits per second.
    pub velocity: Vec2,
    /// Velocity cap the integrator is meant to respect (not yet applied,
    /// as in the reference integrator).
    pub max_velocity: Vec2,
}

impl Default for RigidBody2D {
    /// A non-kinematic body at rest with a velocity cap of (20, 60) world
    /// units per second.
    fn default() -> (rb: RigidBody2D)
        ensures
            !rb.kinematic,
            rb.acceleration == (Vec2 { x: 0i64, y: 0i64 }),
            rb.velocity == (Vec2 { x: 0i64, y: 0i64 }),
            rb.max_velocity == (Vec2 { x: 20_000i64, y: 60_000i64 }),
    {
        RigidBody2D {
            kinematic: false,
            acceleration: Vec2 { x: 0, y: 0 },
            velocity: Vec2 { x: 0, y: 0 },
            max_velocity: Vec2 { x: 20_000, y: 60_000 },
        }
    }
}

impl RigidBody2D {
    /// Applies gravity to the rigid body's acceleration.
    pub fn apply_gravity(&mut self, gravity: i64)
        requires
            i64::MIN <= old(self).acceleration.y - gravity <= i64::MAX,
        ensures
            final(self).acceleration.y == old(self).acceleration.y - gravity,
            final(self).acceleration.x == old(self).acceleration.x,
            final(self).velocity == old(self).velocity,
            final(self).max_velocity == old(self).max_velocity,
            final(self).kinematic == old(self).kinematic,
    {
        self.acceleration.y = self.acceleration.y - gravity;
    }

    /// Updates the rigid body: applies the acceleration, scaled to the
    /// tick's time delta, to the velocity.
    pub fn update(&mut self, dt_ms: u64)
        requires
            old(self).acceleration.bounded(),
            dt_ms <= MAX_TICK_MS,
            i64::MIN <= old(self).velocity.x + scaled_by_ms(
                old(self).acceleration.x as int,
                dt_ms as int,
            ) <= i64::MAX,
            i64::MIN <= old(self).velocity.y + scaled_by_ms(
                old(self).acceleration.y as int,
                dt_ms as int,
            ) <= i64::MAX,
        ensures
            final(self).velocity.x == old(self).velocity.x + scaled_by_ms(
                old(self).acceleration.x as int,
                dt_ms as int,
            ),
            final(self).velocity.y == old(self).velocity.y + scaled_by_ms(
                old(self).acceleration.y as int,
                dt_ms as int,
            ),
            final(self).acceleration == old(self).acceleration,
            final(self).max_velocity == old(self).max_velocity,
            final(self).kinematic == old(self).kinematic,
    {
        self.velocity.x = self.velocity.x + mul_ms(self.acceleration.x, dt_ms);
        self.velocity.y = self.velocity.y + mul_ms(self.acceleration.y, dt_ms);
    }

    /// Updates the transform's translation with this rigid body's
    /// velocity, scaled to the tick's time delta.
    pub fn apply(&self, translation: &mut Vec2, dt_ms: u64)
        requires
            self.velocity.bounded(),
            dt_ms <= MAX_TICK_MS,
            i64::MIN <= old(translation).x + scaled_by_ms(self.velocity.x as int, dt_ms as int)
                <= i64::MAX,
            i64::MIN <= old(translation).y + scaled_by_ms(self.velocity.y as int, dt_ms as int)
                <= i64::MAX,
        ensures
            final(translation).x == old(translation).x + scaled_by_ms(
                self.velocity.x as int,
                dt_ms as int,
            ),
            final(translation).y == old(translation).y + scaled_by_ms(
                self.velocity.y as int,
                dt_ms as int,
            ),
    {
        translation.x = translation.x + mul_ms(self.velocity.x, dt_ms);
        translation.y = translation.y + mul_ms(self.velocity.y, dt_ms);
    }
}

} // verus!
