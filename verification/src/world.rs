//! World resources: the playable area and world-level physics settings.

use vstd::prelude::*;
use crate::math::{Vec2, MAX_UNITS};

verus! {

/// World bounding box: the axis-aligned rectangle the character may not
/// leave.
#[derive(Clone, Copy, Debug)]
pub struct WorldBounds2D {
    /// The bottom left of the world.
    pub min: Vec2,
    /// The top right of the world.
    pub max: Vec2,
}

impl WorldBounds2D {
    /// The corners are ordered and lie within the magnitude bounds.
    pub open spec fn wf(self) -> bool {
        &&& self.min.bounded()
        &&& self.max.bounded()
        &&& self.min.x <= self.max.x
        &&& self.min.y <= self.max.y
    }

    /// A character of horizontal half-extent `half_width` fits between the
    /// left and right edge, so clamping to `[min.x + half_width,
    /// max.x - half_width]` is meaningful.
    pub open spec fn admits_half_width(self, half_width: int) -> bool {
        self.min.x + half_width <= self.max.x - half_width
    }

    /// Returns the width of the world.
    pub fn width(&self) -> (w: i64)
        requires
            self.wf(),
        ensures
            w == self.max.x - self.min.x,
            w >= 0,
    {
        self.max.x - self.min.x
    }

    /// Returns the height of the world.
    pub fn height(&self) -> (h: i64)
        requires
            self.wf(),
        ensures
            h == self.max.y - self.min.y,
            h >= 0,
    {
        self.max.y - self.min.y
    }
}

/// World-level physics configuration.
#[derive(Clone, Copy, Debug)]
pub struct WorldConfig {
    /// Downward gravity, in milliunits per second per second.
    pub gravity: i64,
}

impl Default for WorldConfig {
    /// Standard gravity, 9.81 world units per second per second.
    fn default() -> (c: WorldConfig)
        ensures
            c.gravity == 9810,
    {
        WorldConfig { gravity: 9810 }
    }
}

} // verus!
