//! Physics simulation systems for self-integrated rigid bodies.

use vstd::prelude::*;
use crate::math::{scaled_by_ms, Vec2, MAX_TICK_MS, MAX_UNITS};
use crate::rigidbody::RigidBody2D;
use crate::world::WorldConfig;

verus! {

/// Every intermediate value of one integration step of `rb` at
/// `translation` fits the integer types involved: the new acceleration
/// stays within the magnitude bound, the new velocity does too, and the
/// new translation fits in `i64`.
pub open spec fn integration_fits(
    rb: RigidBody2D,
    gravity: int,
    translation: Vec2,
    dt_ms: int,
) -> bool {
    let a1x = rb.acceleration.x as int;
    let a1y = rb.acceleration.y - gravity;
    let v1x = rb.velocity.x + scaled_by_ms(a1x, dt_ms);
    let v1y = rb.velocity.y + scaled_by_ms(a1y, dt_ms);
    &&& -MAX_UNITS <= a1x <= MAX_UNITS
    &&& -MAX_UNITS <= a1y <= MAX_UNITS
    &&& -MAX_UNITS <= v1x <= MAX_UNITS
    &&& -MAX_UNITS <= v1y <= MAX_UNITS
    &&& i64::MIN <= translation.x + scaled_by_ms(v1x, dt_ms) <= i64::MAX
    &&& i64::MIN <= translation.y + scaled_by_ms(v1y, dt_ms) <= i64::MAX
}

/// Process physics for one `RigidBody2D` component: kinematic bodies are
/// left alone; dynamic ones accumulate gravity, integrate their velocity,
/// and move their transform.
pub fn process_rigidbodies_2d(
    world_config: &WorldConfig,
    rb: &mut RigidBody2D,
    translation: &mut Vec2,
    dt_ms: u64,
)
    requires
        dt_ms <= MAX_TICK_MS,
        !old(rb).kinematic ==> integration_fits(
            *old(rb),
            world_config.gravity as int,
            *old(translation),
            dt_ms as int,
        ),
    ensures
        old(rb).kinematic ==> *final(rb) == *old(rb) && *final(translation) == *old(translation),
        !old(rb).kinematic ==> ({
            let a1y = old(rb).acceleration.y - world_config.gravity;
            let v1x = old(rb).velocity.x + scaled_by_ms(old(rb).acceleration.x as int, dt_ms as int);
            let v1y = old(rb).velocity.y + scaled_by_ms(a1y, dt_ms as int);
            &&& final(rb).acceleration.x == old(rb).acceleration.x
            &&& final(rb).acceleration.y == a1y
            &&& final(rb).velocity.x == v1x
            &&& final(rb).velocity.y == v1y
            &&& final(translation).x == old(translation).x + scaled_by_ms(v1x, dt_ms as int)
            &&& final(translation).y == old(translation).y + scaled_by_ms(v1y, dt_ms as int)
            &&& final(rb).kinematic == old(rb).kinematic
            &&& final(rb).max_velocity == old(rb).max_velocity
        }),
{
    if rb.kinematic {
        // kinematic bodies don't have physics
        return ;
    }
    rb.apply_gravity(world_config.gravity);
    rb.update(dt_ms);
    rb.apply(translation, dt_ms);
}

} // verus!
