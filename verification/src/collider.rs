//! Collider components.

use vstd::prelude::*;
use crate::math::MAX_UNITS;

verus! {

/// An axis-aligned rectangle, in milliunits.
#[derive(Clone, Copy, Debug)]
pub struct Rect {
    pub left: i64,
    pub right: i64,
    pub bottom: i64,
    pub top: i64,
}

impl Rect {
    /// The edges are ordered and lie within the magnitude bounds.
    pub open spec fn wf(self) -> bool {
        &&& -MAX_UNITS <= self.left <= self.right <= MAX_UNITS
        &&& -MAX_UNITS <= self.bottom <= self.top <= MAX_UNITS
    }
}

/// A physics collider.
#[derive(Clone, Copy, Debug)]
pub struct Collider {
    /// Collider bounds.
    pub bounds: Rect,
}

impl Collider {
    /// The bounds rectangle is well formed.
    pub open spec fn wf(self) -> bool {
        self.bounds.wf()
    }

    pub fn width(&self) -> (w: i64)
        requires
            self.wf(),
        ensures
            w == self.bounds.right - self.bounds.left,
            w >= 0,
    {
        self.bounds.right - self.bounds.left
    }

    pub fn height(&self) -> (h: i64)
        requires
            self.wf(),
        ensures
            h == self.bounds.top - self.bounds.bottom,
            h >= 0,
    {
        self.bounds.top - self.bounds.bottom
    }
}

} // verus!
