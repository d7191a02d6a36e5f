//! Fixed-point world coordinates.
//!
//! A position or velocity component is an `i64` counting thousandths of a
//! world unit, so one world unit is [`MILLI`] steps. All world arithmetic is
//! exact integer arithmetic; scaling by a per-tick factor (drag, acceleration)
//! truncates toward zero.

use vstd::arithmetic::div_mod::{lemma_div_by_multiple, lemma_div_is_ordered};
use vstd::arithmetic::mul::lemma_mul_upper_bound;
use vstd::prelude::*;

verus! {

/// Number of fixed-point steps in one world unit.
pub const MILLI: i64 = 1000;

/// Largest coordinate magnitude the world tracks: one million world units.
/// Positions are clamped here, so every product that the physics, the
/// distance rule and the camera form stays well inside `i64`.
pub const POS_LIMIT: i64 = 1_000_000_000;

/// Largest velocity magnitude the world tracks, in steps per tick.
pub const VEL_LIMIT: i64 = 1_000_000_000;

/// Bound on the inputs of [`mul_milli`] and [`add_clamped`]; wide enough for
/// every intermediate value the integrator forms from in-range state.
pub const SCALE_IN_LIMIT: i64 = 4_000_000_000;

/// `v` clamped to the interval `[-lim, lim]`.
pub open spec fn spec_clamp(v: int, lim: int) -> int {
    if v > lim {
        lim
    } else if v < -lim {
        -lim
    } else {
        v
    }
}

/// `v` scaled by `f / 1000`, truncated toward zero.
pub open spec fn spec_mul_milli(v: int, f: int) -> int {
    if v >= 0 {
        (v * f) / 1000
    } else {
        -((-v * f) / 1000)
    }
}

/// A 2D world-space point or velocity in fixed-point coordinates.
#[derive(Clone, Copy, PartialEq, Eq, Structural, Debug)]
pub struct GamePos {
    pub x: i64,
    pub y: i64,
}

impl GamePos {
    /// Both components within the tracked position range.
    pub open spec fn in_pos_bounds(self) -> bool {
        -POS_LIMIT <= self.x <= POS_LIMIT && -POS_LIMIT <= self.y <= POS_LIMIT
    }

    /// Both components within the tracked velocity range.
    pub open spec fn in_vel_bounds(self) -> bool {
        -VEL_LIMIT <= self.x <= VEL_LIMIT && -VEL_LIMIT <= self.y <= VEL_LIMIT
    }

    pub fn new(x: i64, y: i64) -> (r: GamePos)
        ensures
            r == (GamePos { x, y }),
    {
        GamePos { x, y }
    }

    /// Component-wise sum.
    pub fn add(self, rhs: GamePos) -> (r: GamePos)
        requires
            -SCALE_IN_LIMIT <= self.x + rhs.x <= SCALE_IN_LIMIT,
            -SCALE_IN_LIMIT <= self.y + rhs.y <= SCALE_IN_LIMIT,
        ensures
            r.x == self.x + rhs.x,
            r.y == self.y + rhs.y,
    {
        GamePos { x: self.x + rhs.x, y: self.y + rhs.y }
    }

    /// Component-wise difference.
    pub fn sub(self, rhs: GamePos) -> (r: GamePos)
        requires
            -SCALE_IN_LIMIT <= self.x - rhs.x <= SCALE_IN_LIMIT,
            -SCALE_IN_LIMIT <= self.y - rhs.y <= SCALE_IN_LIMIT,
        ensures
            r.x == self.x - rhs.x,
            r.y == self.y - rhs.y,
    {
        GamePos { x: self.x - rhs.x, y: self.y - rhs.y }
    }

    /// Both components scaled by `f / 1000`, truncated toward zero.
    pub fn mul(self, f: i64) -> (r: GamePos)
        requires
            -SCALE_IN_LIMIT <= self.x <= SCALE_IN_LIMIT,
            -SCALE_IN_LIMIT <= self.y <= SCALE_IN_LIMIT,
            0 <= f <= 1000,
        ensures
            r.x == spec_mul_milli(self.x as int, f as int),
            r.y == spec_mul_milli(self.y as int, f as int),
    {
        GamePos { x: mul_milli(self.x, f), y: mul_milli(self.y, f) }
    }
}

/// Scaling by `f / 1000` with `f <= 1000` never grows a magnitude.
pub proof fn lemma_mul_milli_shrinks(v: int, f: int)
    requires
        0 <= f <= 1000,
    ensures
        v >= 0 ==> 0 <= spec_mul_milli(v, f) <= v,
        v < 0 ==> v <= spec_mul_milli(v, f) <= 0,
{
    let m = if v >= 0 {
        v
    } else {
        -v
    };
    lemma_mul_upper_bound(m, m, f, 1000);
    lemma_div_is_ordered(m * f, m * 1000, 1000);
    lemma_div_by_multiple(m, 1000);
    vstd::arithmetic::mul::lemma_mul_nonnegative(m, f);
    vstd::arithmetic::div_mod::lemma_div_pos_is_pos(m * f, 1000);
}

/// `v` scaled by `f / 1000`, truncated toward zero.
pub fn mul_milli(v: i64, f: i64) -> (r: i64)
    requires
        -SCALE_IN_LIMIT <= v <= SCALE_IN_LIMIT,
        0 <= f <= 1000,
    ensures
        r == spec_mul_milli(v as int, f as int),
        -SCALE_IN_LIMIT <= r <= SCALE_IN_LIMIT,
        v >= 0 ==> 0 <= r <= v,
        v < 0 ==> v <= r <= 0,
{
    proof {
        lemma_mul_milli_shrinks(v as int, f as int);
    }
    if v >= 0 {
        let prod: u64 = (v as u64) * (f as u64);
        (prod / 1000) as i64
    } else {
        let neg: i64 = -v;
        let prod: u64 = (neg as u64) * (f as u64);
        -((prod / 1000) as i64)
    }
}

/// `a + b` clamped to `[-lim, lim]`.
pub fn add_clamped(a: i64, b: i64, lim: i64) -> (r: i64)
    requires
        -SCALE_IN_LIMIT <= a <= SCALE_IN_LIMIT,
        -SCALE_IN_LIMIT <= b <= SCALE_IN_LIMIT,
        0 <= lim <= POS_LIMIT,
    ensures
        r == spec_clamp(a + b, lim as int),
{
    let sum: i64 = a + b;
    if sum > lim {
        lim
    } else if sum < -lim {
        -lim
    } else {
        sum
    }
}

} // verus!
