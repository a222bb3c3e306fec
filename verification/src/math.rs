//! Fixed-point scalar and vector arithmetic for the controller.
//!
//! Positions, velocities, forces and impulses are measured in milliunits
//! (thousandths of a world unit); time deltas are milliseconds. Fractional
//! factors such as the air-control factor are fixed-point numbers with
//! [`AIR_CONTROL_ONE`] standing for 1.0.

use vstd::prelude::*;

verus! {

/// Fixed-point one for fractional factors: a factor equal to
/// `AIR_CONTROL_ONE` means 1.0, half of it means 0.5.
pub const AIR_CONTROL_ONE: u64 = 1000;

/// Milliseconds per second, for converting per-second speeds into per-tick
/// travel distances.
pub const MS_PER_SECOND: u64 = 1000;

/// Magnitude bound on world coordinates, speeds and force components, in
/// milliunits. Keeping every stored quantity within this bound is what makes
/// each tick's arithmetic free of overflow.
pub const MAX_UNITS: i64 = 1_000_000_000;

/// Largest time delta one tick may cover, in milliseconds.
pub const MAX_TICK_MS: u64 = 1_000_000;

/// Magnitude bound on the distance covered in one tick: a speed of at most
/// `MAX_UNITS` milliunits per second sustained for at most `MAX_TICK_MS`
/// milliseconds.
pub const MAX_TICK_TRAVEL: i64 = 1_000_000_000_000;

/// A two-dimensional vector with fixed-point integer components.
#[derive(Clone, Copy, Debug, PartialEq, Eq, Structural)]
pub struct Vec2 {
    pub x: i64,
    pub y: i64,
}

impl Vec2 {
    /// Both components lie within the world magnitude bound.
    pub open spec fn bounded(self) -> bool {
        &&& -MAX_UNITS <= self.x <= MAX_UNITS
        &&& -MAX_UNITS <= self.y <= MAX_UNITS
    }

}

impl Default for Vec2 {
    /// The default vector is the zero vector.
    fn default() -> (v: Vec2)
        ensures
            v == (Vec2 { x: 0i64, y: 0i64 }),
    {
        Vec2 { x: 0, y: 0 }
    }
}

/// The componentwise sum of `a` and `b` stays within `i64`.
pub open spec fn sum_fits(a: Vec2, b: Vec2) -> bool {
    &&& i64::MIN <= a.x + b.x <= i64::MAX
    &&& i64::MIN <= a.y + b.y <= i64::MAX
}

/// `v` held to the interval `[lo, hi]`.
pub open spec fn clamp(v: int, lo: int, hi: int) -> int {
    if v <= lo {
        lo
    } else if v >= hi {
        hi
    } else {
        v
    }
}

/// Holds `v` to the interval `[lo, hi]`.
pub fn clamp_i64(v: i64, lo: i64, hi: i64) -> (r: i64)
    requires
        lo <= hi,
    ensures
        r == clamp(v as int, lo as int, hi as int),
        lo <= r <= hi,
{
    if v <= lo {
        lo
    } else if v >= hi {
        hi
    } else {
        v
    }
}

/// A per-second quantity scaled down to a time delta of `dt_ms`
/// milliseconds, truncated toward zero.
pub open spec fn scaled_by_ms(v: int, dt_ms: int) -> int {
    if v >= 0 {
        v * dt_ms / (MS_PER_SECOND as int)
    } else {
        -((-v) * dt_ms / (MS_PER_SECOND as int))
    }
}

/// Scales the per-second quantity `v` down to a time delta of `dt_ms`
/// milliseconds.
pub fn mul_ms(v: i64, dt_ms: u64) -> (r: i64)
    requires
        -MAX_UNITS <= v <= MAX_UNITS,
        dt_ms <= MAX_TICK_MS,
    ensures
        r == scaled_by_ms(v as int, dt_ms as int),
        -MAX_TICK_TRAVEL <= r <= MAX_TICK_TRAVEL,
{
    proof {
        lemma_scaled_by_ms_bound(v as int, dt_ms as int);
    }
    if v >= 0 {
        let t: u64 = (v as u64) * dt_ms / MS_PER_SECOND;
        t as i64
    } else {
        let m: i64 = -v;
        let t: u64 = (m as u64) * dt_ms / MS_PER_SECOND;
        -(t as i64)
    }
}

/// A partial sum `base + k * f` of `n` equal contributions lies between
/// `base` and the full sum `base + n * f`.
pub proof fn lemma_partial_sum_between(base: int, f: int, k: int, n: int)
    requires
        0 <= k <= n,
    ensures
        f >= 0 ==> base <= base + k * f <= base + n * f,
        f < 0 ==> base + n * f <= base + k * f <= base,
{
    assert(f >= 0 ==> 0 <= k * f && k * f <= n * f) by (nonlinear_arith)
        requires
            0 <= k <= n,
    ;
    assert(f < 0 ==> k * f <= 0 && n * f <= k * f) by (nonlinear_arith)
        requires
            0 <= k <= n,
    ;
}

/// The scaled quantity keeps the magnitude bound `MAX_TICK_TRAVEL`.
pub proof fn lemma_scaled_by_ms_bound(v: int, dt_ms: int)
    requires
        -MAX_UNITS <= v <= MAX_UNITS,
        0 <= dt_ms <= MAX_TICK_MS,
    ensures
        -MAX_TICK_TRAVEL <= scaled_by_ms(v, dt_ms) <= MAX_TICK_TRAVEL,
{
    if v >= 0 {
        assert(v * dt_ms <= MAX_UNITS * (MAX_TICK_MS as int)) by (nonlinear_arith)
            requires
                0 <= v <= MAX_UNITS,
                0 <= dt_ms <= MAX_TICK_MS,
        ;
        assert(0 <= v * dt_ms) by (nonlinear_arith)
            requires
                0 <= v,
                0 <= dt_ms,
        ;
        vstd::arithmetic::div_mod::lemma_div_is_ordered(
            v * dt_ms,
            MAX_UNITS * (MAX_TICK_MS as int),
            MS_PER_SECOND as int,
        );
        vstd::arithmetic::div_mod::lemma_div_pos_is_pos(v * dt_ms, MS_PER_SECOND as int);
    } else {
        assert((-v) * dt_ms <= MAX_UNITS * (MAX_TICK_MS as int)) by (nonlinear_arith)
            requires
                0 <= -v <= MAX_UNITS,
                0 <= dt_ms <= MAX_TICK_MS,
        ;
        assert(0 <= (-v) * dt_ms) by (nonlinear_arith)
            requires
                v < 0,
                0 <= dt_ms,
        ;
        vstd::arithmetic::div_mod::lemma_div_is_ordered(
            (-v) * dt_ms,
            MAX_UNITS * (MAX_TICK_MS as int),
            MS_PER_SECOND as int,
        );
        vstd::arithmetic::div_mod::lemma_div_pos_is_pos((-v) * dt_ms, MS_PER_SECOND as int);
    }
}

} // verus!
