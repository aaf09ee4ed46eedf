//! Three-component vectors of fixed-point scalars, the value type every stage
//! of the pipeline works on. All operations are componentwise and exact.

use vstd::prelude::*;
use crate::fixed::{div_trunc, scaled, FP_ONE};

verus! {

/// Largest coordinate magnitude the pipeline accepts: one million world units
/// in fixed-point steps. Keeping camera and scene coordinates inside this
/// range lets every intermediate product of the projection fit its integer
/// type.
pub const COORD_LIMIT: i64 = 1_000_000_000_000;

/// A vector of three fixed-point scalars (see [`crate::fixed::FP_ONE`]).
#[derive(Clone, Copy, PartialEq, Eq, Structural, Debug)]
pub struct Vector3 {
    pub x: i64,
    pub y: i64,
    pub z: i64,
}

/// True when every component of `v` lies within [`COORD_LIMIT`].
pub open spec fn in_coord_bounds(v: Vector3) -> bool {
    &&& -COORD_LIMIT <= v.x <= COORD_LIMIT
    &&& -COORD_LIMIT <= v.y <= COORD_LIMIT
    &&& -COORD_LIMIT <= v.z <= COORD_LIMIT
}

impl Vector3 {
    /// Builds the vector with the given components, unchanged.
    pub fn new(x: i64, y: i64, z: i64) -> (r: Vector3)
        ensures
            r.x == x,
            r.y == y,
            r.z == z,
    {
        Vector3 { x, y, z }
    }

    /// The fixed world-space "up" direction, `(0, 1, 0)` in world units.
    pub fn up() -> (r: Vector3)
        ensures
            r.x == 0,
            r.y == FP_ONE,
            r.z == 0,
    {
        Vector3 { x: 0, y: FP_ONE, z: 0 }
    }

    /// Componentwise sum.
    pub fn add(self, rhs: Vector3) -> (r: Vector3)
        requires
            i64::MIN <= self.x + rhs.x <= i64::MAX,
            i64::MIN <= self.y + rhs.y <= i64::MAX,
            i64::MIN <= self.z + rhs.z <= i64::MAX,
        ensures
            r.x == self.x + rhs.x,
            r.y == self.y + rhs.y,
            r.z == self.z + rhs.z,
    {
        Vector3 { x: self.x + rhs.x, y: self.y + rhs.y, z: self.z + rhs.z }
    }

    /// Componentwise difference.
    pub fn sub(self, rhs: Vector3) -> (r: Vector3)
        requires
            i64::MIN <= self.x - rhs.x <= i64::MAX,
            i64::MIN <= self.y - rhs.y <= i64::MAX,
            i64::MIN <= self.z - rhs.z <= i64::MAX,
        ensures
            r.x == self.x - rhs.x,
            r.y == self.y - rhs.y,
            r.z == self.z - rhs.z,
    {
        Vector3 { x: self.x - rhs.x, y: self.y - rhs.y, z: self.z - rhs.z }
    }

    /// Scales the vector by the fixed-point factor `s`: each component becomes
    /// `scaled(component, s)`, the exact truncated fixed-point product.
    pub fn mul(self, s: i64) -> (r: Vector3)
        requires
            i64::MIN <= scaled(self.x as int, s as int) <= i64::MAX,
            i64::MIN <= scaled(self.y as int, s as int) <= i64::MAX,
            i64::MIN <= scaled(self.z as int, s as int) <= i64::MAX,
        ensures
            r.x == scaled(self.x as int, s as int),
            r.y == scaled(self.y as int, s as int),
            r.z == scaled(self.z as int, s as int),
    {
        let x = div_trunc((self.x as i128) * (s as i128), FP_ONE as i128);
        let y = div_trunc((self.y as i128) * (s as i128), FP_ONE as i128);
        let z = div_trunc((self.z as i128) * (s as i128), FP_ONE as i128);
        Vector3 { x: x as i64, y: y as i64, z: z as i64 }
    }

    /// Adds `rhs` into `self` in place; the result is the componentwise sum.
    pub fn add_assign(&mut self, rhs: Vector3)
        requires
            i64::MIN <= old(self).x + rhs.x <= i64::MAX,
            i64::MIN <= old(self).y + rhs.y <= i64::MAX,
            i64::MIN <= old(self).z + rhs.z <= i64::MAX,
        ensures
            final(self).x == old(self).x + rhs.x,
            final(self).y == old(self).y + rhs.y,
            final(self).z == old(self).z + rhs.z,
    {
        self.x = self.x + rhs.x;
        self.y = self.y + rhs.y;
        self.z = self.z + rhs.z;
    }
}

} // verus!
