//! Fixed-point plane geometry: positions, velocities and the circle-overlap
//! test that all collision rules share.

use vstd::prelude::*;
use crate::HALF_MAP;

verus! {

/// A point or vector of the plane, in fixed-point steps (thousandths of a
/// world unit).
#[derive(Clone, Copy, PartialEq, Eq, Structural, Debug)]
pub struct Vec2 {
    pub x: i64,
    pub y: i64,
}

/// Bound on any coordinate that the arithmetic of this crate handles.
/// Far beyond the playable area, and small enough that squared distances
/// and every intermediate sum stay inside `i64`.
pub const COORD_LIMIT: i64 = 1_000_000_000;

/// Bound on any radius handed to the circle-overlap test.
pub const RADIUS_LIMIT: i64 = 1_000_000_000;

impl Vec2 {
    /// The point lies inside the map square (borders included).
    pub open spec fn in_map(self) -> bool {
        -HALF_MAP <= self.x <= HALF_MAP && -HALF_MAP <= self.y <= HALF_MAP
    }

    /// Both coordinates are small enough for the crate's arithmetic.
    pub open spec fn bounded(self) -> bool {
        -COORD_LIMIT <= self.x <= COORD_LIMIT && -COORD_LIMIT <= self.y <= COORD_LIMIT
    }
}

/// Squared Euclidean distance between two points.
pub open spec fn dist_sq(a: Vec2, b: Vec2) -> int {
    (a.x - b.x) * (a.x - b.x) + (a.y - b.y) * (a.y - b.y)
}

/// The two circles' centers are closer than `radius`: the strict
/// distance-under-radius test every collision rule uses. For a positive
/// radius this is exactly `sqrt(dist_sq) < radius`, stated without roots.
pub open spec fn collides(a: Vec2, b: Vec2, radius: int) -> bool {
    dist_sq(a, b) < radius * radius
}

/// Circle-overlap test on fixed-point coordinates.
pub fn check_collision(a: Vec2, b: Vec2, radius: i64) -> (hit: bool)
    requires
        a.bounded(),
        b.bounded(),
        0 < radius <= RADIUS_LIMIT,
    ensures
        hit == collides(a, b, radius as int),
{
    let dx: i64 = a.x - b.x;
    let dy: i64 = a.y - b.y;
    proof {
        assert(0 <= dx * dx <= 4_000_000_000_000_000_000) by (nonlinear_arith)
            requires -2_000_000_000 <= dx <= 2_000_000_000;
        assert(0 <= dy * dy <= 4_000_000_000_000_000_000) by (nonlinear_arith)
            requires -2_000_000_000 <= dy <= 2_000_000_000;
        assert(0 <= radius * radius <= 1_000_000_000_000_000_000) by (nonlinear_arith)
            requires 0 < radius <= 1_000_000_000;
    }
    dx * dx + dy * dy < radius * radius
}

} // verus!
