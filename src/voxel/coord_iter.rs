//! Enumeration of the integer coordinates of a half-open box, x fastest,
//! then y, then z.

use vstd::prelude::*;
use crate::math::{Vec3i, Bounds3i};
use vstd::arithmetic::div_mod::{lemma_fundamental_div_mod_converse, lemma_div_denominator};

verus! {

/// Number of coordinates of the box `[min, max)` (zero when it is empty).
pub open spec fn box_len(min: Vec3i, max: Vec3i) -> int {
    if min.x < max.x && min.y < max.y && min.z < max.z {
        (max.x - min.x) * (max.y - min.y) * (max.z - min.z)
    } else {
        0
    }
}

/// The `n`-th coordinate of the box `[min, max)` in x-fastest order.
pub open spec fn box_nth(min: Vec3i, max: Vec3i, n: int) -> Vec3i {
    let sx = max.x - min.x;
    let sy = max.y - min.y;
    Vec3i {
        x: (min.x + n % sx) as i32,
        y: (min.y + (n / sx) % sy) as i32,
        z: (min.z + n / (sx * sy)) as i32,
    }
}

/// Position of `c` in the x-fastest order of the box at `min` with row length
/// `sx` and layer height `sy`.
pub open spec fn box_ordinal(min: Vec3i, sx: int, sy: int, c: Vec3i) -> int {
    (c.x - min.x) + sx * ((c.y - min.y) + sy * (c.z - min.z))
}

proof fn lemma_mixed_radix(i: int, j: int, k: int, sx: int, sy: int)
    requires
        0 <= i < sx,
        0 <= j < sy,
        0 <= k,
    ensures
        (i + sx * (j + sy * k)) % sx == i,
        ((i + sx * (j + sy * k)) / sx) % sy == j,
        (i + sx * (j + sy * k)) / (sx * sy) == k,
{
    let n = i + sx * (j + sy * k);
    assert(n == (j + sy * k) * sx + i) by (nonlinear_arith)
        requires
            n == i + sx * (j + sy * k),
    ;
    lemma_fundamental_div_mod_converse(n, sx, j + sy * k, i);
    assert(j + sy * k == k * sy + j) by (nonlinear_arith);
    lemma_fundamental_div_mod_converse(j + sy * k, sy, k, j);
    lemma_div_denominator(n, sx, sy);
}

/// The `n`-th coordinate lies in the box, and distinct positions give
/// distinct coordinates.
pub proof fn lemma_box_nth(min: Vec3i, max: Vec3i, n: int)
    requires
        0 <= n < box_len(min, max),
    ensures
        (Bounds3i { min, max }).has(box_nth(min, max, n)),
        box_ordinal(min, max.x - min.x, max.y - min.y, box_nth(min, max, n)) == n,
        forall|m: int|
            0 <= m < box_len(min, max) && box_nth(min, max, m) == box_nth(min, max, n) ==> m == n,
{
    let sx = max.x - min.x;
    let sy = max.y - min.y;
    let sz = max.z - min.z;
    assert forall|m: int| 0 <= m < box_len(min, max) implies {
        let c = #[trigger] box_nth(min, max, m);
        &&& (Bounds3i { min, max }).has(c)
        &&& box_ordinal(min, sx, sy, c) == m
    } by {
        let q = m / sx;
        vstd::arithmetic::div_mod::lemma_fundamental_div_mod(m, sx);
        vstd::arithmetic::div_mod::lemma_fundamental_div_mod(q, sy);
        lemma_div_denominator(m, sx, sy);
        let i = m % sx;
        let j = q % sy;
        let k = q / sy;
        assert(0 <= k < sz) by (nonlinear_arith)
            requires
                m == sx * q + i,
                q == sy * k + j,
                0 <= i < sx,
                0 <= j < sy,
                0 <= m < sx * sy * sz,
                sx > 0,
                sy > 0,
        ;
        assert(m == i + sx * (j + sy * k)) by (nonlinear_arith)
            requires
                m == sx * q + i,
                q == sy * k + j,
        ;
    }
}

/// Iterator over the coordinates of a half-open box, x fastest, then y, then z.
pub struct VoxelCoordIterator {
    min: Vec3i,
    max: Vec3i,
    current: Vec3i,
    finished: bool,
}

impl VoxelCoordIterator {
    pub closed spec fn spec_min(&self) -> Vec3i {
        self.min
    }

    pub closed spec fn spec_max(&self) -> Vec3i {
        self.max
    }

    /// How many coordinates were handed out so far.
    pub closed spec fn pos(&self) -> int {
        if self.finished {
            box_len(self.min, self.max)
        } else {
            box_ordinal(self.min, self.max.x - self.min.x, self.max.y - self.min.y, self.current)
        }
    }

    pub closed spec fn wf(&self) -> bool {
        !self.finished ==> Bounds3i { min: self.min, max: self.max }.has(self.current)
    }

    proof fn lemma_pos(&self)
        requires
            self.wf(),
        ensures
            0 <= self.pos() <= box_len(self.min, self.max),
            !self.finished ==> self.pos() < box_len(self.min, self.max) && box_nth(
                self.min,
                self.max,
                self.pos(),
            ) == self.current,
    {
        if !self.finished {
            let sx = self.max.x - self.min.x;
            let sy = self.max.y - self.min.y;
            let sz = self.max.z - self.min.z;
            let i = self.current.x - self.min.x;
            let j = self.current.y - self.min.y;
            let k = self.current.z - self.min.z;
            lemma_mixed_radix(i, j, k, sx, sy);
            assert(0 <= i + sx * (j + sy * k) < sx * sy * sz) by (nonlinear_arith)
                requires
                    0 <= i < sx,
                    0 <= j < sy,
                    0 <= k < sz,
            ;
        }
    }

    /// An iterator over `[min, max)`; it yields nothing when the box is empty.
    pub fn new(min: Vec3i, max: Vec3i) -> (r: Self)
        ensures
            r.wf(),
            r.spec_min() == min,
            r.spec_max() == max,
            r.pos() == 0,
    {
        let finished = !(min.x < max.x && min.y < max.y && min.z < max.z);
        proof {
            let sx = max.x - min.x;
            let sy = max.y - min.y;
            assert(sx * (0 + sy * 0) == 0) by (nonlinear_arith);
        }
        VoxelCoordIterator { min, max, current: min, finished }
    }

    /// The next coordinate in x-fastest order, or `None` after the last.
    pub fn next(&mut self) -> (r: Option<Vec3i>)
        requires
            old(self).wf(),
        ensures
            final(self).wf(),
            final(self).spec_min() == old(self).spec_min(),
            final(self).spec_max() == old(self).spec_max(),
            old(self).pos() < box_len(old(self).spec_min(), old(self).spec_max()) ==> r == Some(
                box_nth(old(self).spec_min(), old(self).spec_max(), old(self).pos()),
            ) && final(self).pos() == old(self).pos() + 1,
            old(self).pos() >= box_len(old(self).spec_min(), old(self).spec_max()) ==> r is None
                && final(self).pos() == old(self).pos(),
    {
        proof {
            self.lemma_pos();
        }
        if self.finished {
            return None;
        }
        let result = self.current;
        let ghost sx = self.max.x - self.min.x;
        let ghost sy = self.max.y - self.min.y;
        let ghost sz = self.max.z - self.min.z;
        let ghost i = self.current.x - self.min.x;
        let ghost j = self.current.y - self.min.y;
        let ghost k = self.current.z - self.min.z;
        self.current.x = self.current.x + 1;
        if self.current.x >= self.max.x {
            self.current.x = self.min.x;
            self.current.y = self.current.y + 1;
            if self.current.y >= self.max.y {
                self.current.y = self.min.y;
                self.current.z = self.current.z + 1;
                if self.current.z >= self.max.z {
                    self.finished = true;
                    proof {
                        assert(i + sx * (j + sy * k) + 1 == sx * sy * sz) by (nonlinear_arith)
                            requires
                                i == sx - 1,
                                j == sy - 1,
                                k == sz - 1,
                        ;
                    }
                } else {
                    proof {
                        assert(i + sx * (j + sy * k) + 1 == 0 + sx * (0 + sy * (k + 1)))
                            by (nonlinear_arith)
                            requires
                                i == sx - 1,
                                j == sy - 1,
                        ;
                    }
                }
            } else {
                proof {
                    assert(i + sx * (j + sy * k) + 1 == 0 + sx * ((j + 1) + sy * k)) by (nonlinear_arith)
                        requires
                            i == sx - 1,
                    ;
                }
            }
        }
        Some(result)
    }
}

} // verus!
