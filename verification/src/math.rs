//! Integer vector geometry.
//!
//! All coordinates are milliunits: 1000 is one world unit. Keeping the model
//! in integers lets every controller state its effect exactly.

use vstd::prelude::*;

verus! {

/// Largest coordinate magnitude the controllers accept as input for a frame.
/// One frame moves any coordinate by well under `2 * COORD_LIMIT`, so all
/// arithmetic on accepted inputs stays far inside `i64`.
pub const COORD_LIMIT: i64 = 1_000_000_000_000_000;

/// A point or displacement in milliunits.
#[derive(Clone, Copy, PartialEq, Eq, Structural, Debug)]
pub struct Vec3 {
    pub x: i64,
    pub y: i64,
    pub z: i64,
}

impl Vec3 {
    /// The origin.
    pub fn zero() -> (v: Vec3)
        ensures
            v == (Vec3 { x: 0, y: 0, z: 0 }),
    {
        Vec3 { x: 0, y: 0, z: 0 }
    }
}

/// Every coordinate of `v` has magnitude at most `b`.
pub open spec fn in_bounds(v: Vec3, b: int) -> bool {
    &&& -b <= v.x <= b
    &&& -b <= v.y <= b
    &&& -b <= v.z <= b
}

/// Componentwise sum. On inputs within `COORD_LIMIT` the casts are exact.
pub open spec fn spec_add(a: Vec3, b: Vec3) -> Vec3 {
    Vec3 { x: (a.x + b.x) as i64, y: (a.y + b.y) as i64, z: (a.z + b.z) as i64 }
}

/// Squared Euclidean length, as an unbounded integer.
pub open spec fn norm_sq(v: Vec3) -> int {
    v.x * v.x + v.y * v.y + v.z * v.z
}

/// Squared Euclidean distance, as an unbounded integer.
pub open spec fn dist_sq(a: Vec3, b: Vec3) -> int {
    (a.x - b.x) * (a.x - b.x) + (a.y - b.y) * (a.y - b.y) + (a.z - b.z) * (a.z - b.z)
}

/// Componentwise sum of two in-bounds vectors.
pub fn vec_add(a: Vec3, b: Vec3) -> (r: Vec3)
    requires
        in_bounds(a, 2 * COORD_LIMIT as int),
        in_bounds(b, 2 * COORD_LIMIT as int),
    ensures
        r == spec_add(a, b),
{
    Vec3 { x: a.x + b.x, y: a.y + b.y, z: a.z + b.z }
}

} // verus!
