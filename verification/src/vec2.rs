//! Planar vectors with fixed-point coordinates.

use vstd::prelude::*;

verus! {

/// A point or displacement in the planar reference frame, in raw ticks.
#[derive(Clone, Copy, Debug, PartialEq, Eq, Structural)]
pub struct Vec2 {
    pub x: i64,
    pub y: i64,
}

/// Squared Euclidean distance between two points, exact.
pub open spec fn dist2_s(a: Vec2, b: Vec2) -> int {
    (a.x - b.x) * (a.x - b.x) + (a.y - b.y) * (a.y - b.y)
}

/// Squared distance saturated at the `u128` range, the value the machine
/// computes for far-apart points.
pub open spec fn dist2_sat_s(a: Vec2, b: Vec2) -> int {
    if dist2_s(a, b) > u128::MAX as int {
        u128::MAX as int
    } else {
        dist2_s(a, b)
    }
}

impl Vec2 {
    /// A vector from its coordinates.
    pub fn new(x: i64, y: i64) -> (v: Vec2)
        ensures
            v.x == x,
            v.y == y,
    {
        Vec2 { x, y }
    }
}

fn square_of_diff(a: i64, b: i64) -> (r: u128)
    ensures
        r as int == (a - b) * (a - b),
{
    let d: i128 = (a as i128) - (b as i128);
    let m: u128 = if d < 0 {
        (-d) as u128
    } else {
        d as u128
    };
    proof {
        assert((m as int) * (m as int) == (d as int) * (d as int) && (m as int) * (m as int)
            <= u128::MAX as int) by (nonlinear_arith)
            requires
                m as int == (if d < 0 {
                    -(d as int)
                } else {
                    d as int
                }),
                -18446744073709551615 <= d <= 18446744073709551615,
        ;
    }
    m * m
}

/// Whether `a` lies strictly within `radius` of `b` (Euclidean distance).
pub fn within_radius(a: Vec2, b: Vec2, radius: i64) -> (r: bool)
    requires
        radius >= 0,
    ensures
        r == (dist2_s(a, b) < radius * radius),
{
    let dx2: u128 = square_of_diff(a.x, b.x);
    let dy2: u128 = square_of_diff(a.y, b.y);
    proof {
        assert((radius as int) * (radius as int) <= 0x55555555555555555555555555555555int)
            by (nonlinear_arith)
            requires
                0 <= radius <= i64::MAX,
        ;
    }
    let r2: u128 = (radius as u128) * (radius as u128);
    if dx2 >= r2 {
        false
    } else if dy2 >= r2 {
        false
    } else {
        dx2 + dy2 < r2
    }
}

/// Squared distance between two points, saturated at the `u128` range.
pub fn dist2_sat(a: Vec2, b: Vec2) -> (r: u128)
    ensures
        r as int == dist2_sat_s(a, b),
{
    let dx2: u128 = square_of_diff(a.x, b.x);
    let dy2: u128 = square_of_diff(a.y, b.y);
    if dx2 > u128::MAX - dy2 {
        u128::MAX
    } else {
        dx2 + dy2
    }
}

} // verus!
