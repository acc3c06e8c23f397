//! Integer vectors and axis-aligned integer boxes.

use vstd::prelude::*;

verus! {

/// A point or offset on the integer voxel grid.
#[derive(Debug, Clone, Copy, PartialEq, Eq, Hash, Structural)]
pub struct Vec3i {
    pub x: i32,
    pub y: i32,
    pub z: i32,
}

pub open spec fn min_i(a: i32, b: i32) -> i32 {
    if a <= b { a } else { b }
}

pub open spec fn max_i(a: i32, b: i32) -> i32 {
    if a >= b { a } else { b }
}

impl Vec3i {
    pub fn new(x: i32, y: i32, z: i32) -> (r: Self)
        ensures
            r == (Vec3i { x, y, z }),
    {
        Vec3i { x, y, z }
    }

    pub fn zero() -> (r: Self)
        ensures
            r == (Vec3i { x: 0, y: 0, z: 0 }),
    {
        Vec3i { x: 0, y: 0, z: 0 }
    }

    pub fn one() -> (r: Self)
        ensures
            r == (Vec3i { x: 1, y: 1, z: 1 }),
    {
        Vec3i { x: 1, y: 1, z: 1 }
    }

    /// Component-wise minimum.
    pub fn min(self, other: Self) -> (r: Self)
        ensures
            r == (Vec3i {
                x: min_i(self.x, other.x),
                y: min_i(self.y, other.y),
                z: min_i(self.z, other.z),
            }),
    {
        Vec3i {
            x: if self.x <= other.x { self.x } else { other.x },
            y: if self.y <= other.y { self.y } else { other.y },
            z: if self.z <= other.z { self.z } else { other.z },
        }
    }

    /// Component-wise maximum.
    pub fn max(self, other: Self) -> (r: Self)
        ensures
            r == (Vec3i {
                x: max_i(self.x, other.x),
                y: max_i(self.y, other.y),
                z: max_i(self.z, other.z),
            }),
    {
        Vec3i {
            x: if self.x >= other.x { self.x } else { other.x },
            y: if self.y >= other.y { self.y } else { other.y },
            z: if self.z >= other.z { self.z } else { other.z },
        }
    }

    /// Component-wise sum; every component of the result must fit in `i32`.
    pub fn plus(self, other: Self) -> (r: Self)
        requires
            i32::MIN <= self.x + other.x <= i32::MAX,
            i32::MIN <= self.y + other.y <= i32::MAX,
            i32::MIN <= self.z + other.z <= i32::MAX,
        ensures
            r.x == self.x + other.x,
            r.y == self.y + other.y,
            r.z == self.z + other.z,
    {
        Vec3i { x: self.x + other.x, y: self.y + other.y, z: self.z + other.z }
    }

    /// Component-wise difference; every component of the result must fit in `i32`.
    pub fn minus(self, other: Self) -> (r: Self)
        requires
            i32::MIN <= self.x - other.x <= i32::MAX,
            i32::MIN <= self.y - other.y <= i32::MAX,
            i32::MIN <= self.z - other.z <= i32::MAX,
        ensures
            r.x == self.x - other.x,
            r.y == self.y - other.y,
            r.z == self.z - other.z,
    {
        Vec3i { x: self.x - other.x, y: self.y - other.y, z: self.z - other.z }
    }

    /// Every component multiplied by `s`; the products must fit in `i32`.
    pub fn times(self, s: i32) -> (r: Self)
        requires
            i32::MIN <= self.x * s <= i32::MAX,
            i32::MIN <= self.y * s <= i32::MAX,
            i32::MIN <= self.z * s <= i32::MAX,
        ensures
            r.x == self.x * s,
            r.y == self.y * s,
            r.z == self.z * s,
    {
        Vec3i { x: self.x * s, y: self.y * s, z: self.z * s }
    }
}

/// An axis-aligned box, half-open on every axis: `[min, max)`.
#[derive(Debug, Clone, Copy, PartialEq, Eq, Structural)]
pub struct Bounds3i {
    pub min: Vec3i,
    pub max: Vec3i,
}

impl Bounds3i {
    /// Whether `p` lies in the half-open box.
    pub open spec fn has(self, p: Vec3i) -> bool {
        &&& self.min.x <= p.x < self.max.x
        &&& self.min.y <= p.y < self.max.y
        &&& self.min.z <= p.z < self.max.z
    }

    pub open spec fn spec_empty() -> Bounds3i {
        Bounds3i {
            min: Vec3i { x: i32::MAX, y: i32::MAX, z: i32::MAX },
            max: Vec3i { x: i32::MIN, y: i32::MIN, z: i32::MIN },
        }
    }

    /// Smallest box holding both boxes' corners.
    pub open spec fn spec_union(self, o: Bounds3i) -> Bounds3i {
        Bounds3i {
            min: Vec3i {
                x: min_i(self.min.x, o.min.x),
                y: min_i(self.min.y, o.min.y),
                z: min_i(self.min.z, o.min.z),
            },
            max: Vec3i {
                x: max_i(self.max.x, o.max.x),
                y: max_i(self.max.y, o.max.y),
                z: max_i(self.max.z, o.max.z),
            },
        }
    }

    pub fn new(min: Vec3i, max: Vec3i) -> (r: Self)
        ensures
            r == (Bounds3i { min, max }),
    {
        Bounds3i { min, max }
    }

    /// The empty box: `min` at the largest and `max` at the smallest `i32`.
    pub fn empty() -> (r: Self)
        ensures
            r == Self::spec_empty(),
            forall|p: Vec3i| !r.has(p),
    {
        Bounds3i {
            min: Vec3i { x: i32::MAX, y: i32::MAX, z: i32::MAX },
            max: Vec3i { x: i32::MIN, y: i32::MIN, z: i32::MIN },
        }
    }

    /// The degenerate box whose two corners are `point`.
    pub fn from_point(point: Vec3i) -> (r: Self)
        ensures
            r == (Bounds3i { min: point, max: point }),
    {
        Bounds3i { min: point, max: point }
    }

    /// Grows the corners to take in `point`.
    pub fn expand(self, point: Vec3i) -> (r: Self)
        ensures
            r == self.spec_union(Bounds3i { min: point, max: point }),
    {
        Bounds3i { min: self.min.min(point), max: self.max.max(point) }
    }

    /// Grows the corners to take in the corners of `other`.
    pub fn expand_bounds(self, other: Self) -> (r: Self)
        ensures
            r == self.spec_union(other),
            forall|p: Vec3i| self.has(p) || other.has(p) ==> r.has(p),
    {
        Bounds3i { min: self.min.min(other.min), max: self.max.max(other.max) }
    }

    /// Whether `point` lies in the box; the upper corner is excluded.
    pub fn contains(self, point: Vec3i) -> (r: bool)
        ensures
            r == self.has(point),
    {
        point.x >= self.min.x && point.x < self.max.x && point.y >= self.min.y && point.y
            < self.max.y && point.z >= self.min.z && point.z < self.max.z
    }

    /// Whether the two boxes overlap.
    pub fn intersects(self, other: Self) -> (r: bool)
        ensures
            r == (self.min.x < other.max.x && self.max.x > other.min.x && self.min.y
                < other.max.y && self.max.y > other.min.y && self.min.z < other.max.z
                && self.max.z > other.min.z),
    {
        self.min.x < other.max.x && self.max.x > other.min.x && self.min.y < other.max.y
            && self.max.y > other.min.y && self.min.z < other.max.z && self.max.z > other.min.z
    }

    /// Extent on each axis, `max - min`; each difference must fit in `i32`.
    pub fn size(self) -> (r: Vec3i)
        requires
            i32::MIN <= self.max.x - self.min.x <= i32::MAX,
            i32::MIN <= self.max.y - self.min.y <= i32::MAX,
            i32::MIN <= self.max.z - self.min.z <= i32::MAX,
        ensures
            r.x == self.max.x - self.min.x,
            r.y == self.max.y - self.min.y,
            r.z == self.max.z - self.min.z,
    {
        self.max.minus(self.min)
    }

    /// Product of the three extents; the extents and the product must fit.
    pub fn volume(self) -> (r: i64)
        requires
            i32::MIN <= self.max.x - self.min.x <= i32::MAX,
            i32::MIN <= self.max.y - self.min.y <= i32::MAX,
            i32::MIN <= self.max.z - self.min.z <= i32::MAX,
            i64::MIN <= (self.max.x - self.min.x) * (self.max.y - self.min.y) * (self.max.z
                - self.min.z) <= i64::MAX,
        ensures
            r == (self.max.x - self.min.x) * (self.max.y - self.min.y) * (self.max.z
                - self.min.z),
    {
        let size = self.size();
        let a = size.x as i64;
        let b = size.y as i64;
        assert(-0x8000_0000 <= a <= 0x7fff_ffff && -0x8000_0000 <= b <= 0x7fff_ffff
            ==> -0x4000_0000_0000_0000 <= a * b <= 0x4000_0000_0000_0000) by (nonlinear_arith);
        let xy = a * b;
        xy * size.z as i64
    }
}

} // verus!
