//! The bottom level: a dense block of optional payloads.

use vstd::prelude::*;
use crate::math::{Vec3i, Bounds3i};
use crate::voxel_data::VoxelData;
use crate::voxel::{
    NodeTrait, ChildNodeTrait, NodeDiagnostics, NodeType, active_weight, present_weight,
};
use crate::grid::{
    MAX_LOG2_CUM, extent, local, key_of, encode, block_fits, extent_of, key_at, lemma_low_mask,
    lemma_snap_local, lemma_snap_in_block, lemma_encode_bounds, lemma_decode,
    lemma_encode_injective,
};
use crate::tally::{tally, lemma_tally_prefix_le, lemma_tally_pointwise, lemma_tally_take, lemma_tally_update, lemma_tally_zero, lemma_tally_le, lemma_tally_bound};

verus! {

/// Whether a box has no point in it.
pub open spec fn holds_no_point(b: Bounds3i) -> bool {
    b.min.x >= b.max.x || b.min.y >= b.max.y || b.min.z >= b.max.z
}

/// Whether a leaf of log2 `l` can have bounds `b`: either they hold no point,
/// or they lie in the aligned block whose lower corner is `b.min`.
pub open spec fn leaf_bounds_ok(b: Bounds3i, l: nat) -> bool {
    holds_no_point(b) || {
        &&& key_of(b.min, l) == b.min
        &&& block_fits(b.min, l)
        &&& b.max.x <= b.min.x + extent(l)
        &&& b.max.y <= b.min.y + extent(l)
        &&& b.max.z <= b.min.z + extent(l)
    }
}

/// `n`, or the largest `usize` when `n` is larger.
pub open spec fn saturated(n: int) -> int {
    if n > usize::MAX {
        usize::MAX as int
    } else {
        n
    }
}

pub open spec fn active_w<T: VoxelData>() -> spec_fn(Option<T>) -> nat {
    |o: Option<T>| active_weight(o)
}

/// The weight a listing counts: active payloads, or all stored ones.
pub open spec fn pick_w<T: VoxelData>(only_active: bool) -> spec_fn(Option<T>) -> nat {
    if only_active {
        active_w::<T>()
    } else {
        present_w::<T>()
    }
}

pub open spec fn present_w<T>() -> spec_fn(Option<T>) -> nat {
    |o: Option<T>| present_weight(o)
}

/// Leaf node that stores the voxel payloads of one dense block.
///
/// `LOG2` is the log2 of the number of voxels per axis.
pub struct LeafNode<T, const LOG2: usize> {
    background_value: T,
    data: Vec<Option<T>>,
    origin: Vec3i,
    bounds: Bounds3i,
    level: u32,
    active_count: usize,
}

impl<T: VoxelData, const LOG2: usize> LeafNode<T, LOG2> {
    /// Voxels per axis.
    pub open spec fn side() -> int {
        extent(LOG2 as nat)
    }

    /// Dense index of `c` in a block of this type.
    pub open spec fn slot_of(c: Vec3i) -> int {
        encode(
            local(c.x, LOG2 as nat) as int,
            local(c.y, LOG2 as nat) as int,
            local(c.z, LOG2 as nat) as int,
            Self::side(),
        )
    }

    /// Coordinate of dense index `n` in the block at `origin`.
    pub open spec fn coord_of_slot(origin: Vec3i, n: int) -> Vec3i {
        let s = Self::side();
        Vec3i {
            x: (origin.x + n % s) as i32,
            y: (origin.y + (n % (s * s)) / s) as i32,
            z: (origin.z + n / (s * s)) as i32,
        }
    }

    pub closed spec fn spec_data(&self) -> Seq<Option<T>> {
        self.data@
    }

    pub closed spec fn spec_origin_field(&self) -> Vec3i {
        self.origin
    }

    proof fn lemma_side()
        requires
            LOG2 <= MAX_LOG2_CUM,
        ensures
            1 <= Self::side() <= 1024,
            Self::side() * Self::side() * Self::side() <= 0x4000_0000,
    {
        lemma_low_mask(LOG2 as nat);
        vstd::arithmetic::power2::lemma_pow2_adds(LOG2 as nat, LOG2 as nat);
        vstd::arithmetic::power2::lemma_pow2_adds((2 * LOG2) as nat, LOG2 as nat);
        lemma_low_mask(3 * LOG2 as nat);
        if LOG2 < 10 {
            vstd::arithmetic::power2::lemma_pow2_strictly_increases(LOG2 as nat, 10);
        }
        vstd::arithmetic::power2::lemma2_to64();
    }

    /// The slot of an in-bounds coordinate is in range, distinct coordinates
    /// have distinct slots, and the slot decodes back to the coordinate.
    proof fn lemma_slot(&self, c: Vec3i)
        requires
            self.wf(),
            self.bounds.has(c),
        ensures
            0 <= Self::slot_of(c) < self.data@.len(),
            Self::coord_of_slot(self.origin, Self::slot_of(c)) == c,
            forall|c2: Vec3i|
                self.bounds.has(c2) && Self::slot_of(c2) == Self::slot_of(c) ==> c2 == c,
    {
        Self::lemma_side();
        let l = LOG2 as nat;
        let s = Self::side();
        let o = self.origin;
        lemma_snap_local(o.x, l);
        lemma_snap_local(o.y, l);
        lemma_snap_local(o.z, l);
        lemma_snap_in_block(c.x, o.x, l);
        lemma_snap_in_block(c.y, o.y, l);
        lemma_snap_in_block(c.z, o.z, l);
        lemma_encode_bounds(c.x - o.x, c.y - o.y, c.z - o.z, s);
        assert forall|c2: Vec3i|
            self.bounds.has(c2) && Self::slot_of(c2) == Self::slot_of(c) implies c2 == c by {
            lemma_snap_in_block(c2.x, o.x, l);
            lemma_snap_in_block(c2.y, o.y, l);
            lemma_snap_in_block(c2.z, o.z, l);
            lemma_encode_injective(
                c2.x - o.x,
                c2.y - o.y,
                c2.z - o.z,
                c.x - o.x,
                c.y - o.y,
                c.z - o.z,
                s,
            );
        }
    }

    /// A slot whose coordinate is in bounds is that coordinate's slot.
    proof fn lemma_coord_of_slot(&self, n: int)
        requires
            self.wf(),
            0 <= n < self.data@.len(),
            self.bounds.has(Self::coord_of_slot(self.origin, n)),
        ensures
            Self::slot_of(Self::coord_of_slot(self.origin, n)) == n,
    {
        Self::lemma_side();
        let l = LOG2 as nat;
        let s = Self::side();
        let o = self.origin;
        let c = Self::coord_of_slot(o, n);
        lemma_decode(n, s);
        lemma_snap_local(o.x, l);
        lemma_snap_local(o.y, l);
        lemma_snap_local(o.z, l);
        lemma_snap_in_block(c.x, o.x, l);
        lemma_snap_in_block(c.y, o.y, l);
        lemma_snap_in_block(c.z, o.z, l);
    }

    /// Creates an empty leaf at `level` whose bounds are `bounds`.
    pub fn new(level: u32, bounds: Bounds3i) -> (r: Self)
        requires
            LOG2 <= MAX_LOG2_CUM,
            leaf_bounds_ok(bounds, LOG2 as nat),
        ensures
            r.wf(),
            r.spec_level() == level,
            r.spec_bounds() == bounds,
            r.spec_bg() == T::spec_background(),
            r.spec_active_count() == 0,
            r.spec_total_count() == 0,
            forall|c: Vec3i| r.lookup(c) is None,
            forall|c: Vec3i|
                #[trigger] r.in_region(c) == bounds.has(c) && r.has_slot(c) == bounds.has(c)
                    && r.accepts(c),
    {
        Self::new_with_background(level, bounds, T::background())
    }

    fn new_with_background(level: u32, bounds: Bounds3i, background_value: T) -> (r: Self)
        requires
            LOG2 <= MAX_LOG2_CUM,
            leaf_bounds_ok(bounds, LOG2 as nat),
        ensures
            r.wf(),
            r.spec_level() == level,
            r.spec_bounds() == bounds,
            r.spec_bg() == background_value,
            r.spec_origin_field() == bounds.min,
            r.spec_active_count() == 0,
            r.spec_total_count() == 0,
            forall|c: Vec3i| r.lookup(c) is None,
    {
        proof {
            Self::lemma_side();
        }
        let dims = Self::calculate_dimensions();
        proof {
            assert(dims.x * dims.y <= 1024 * 1024) by (nonlinear_arith)
                requires
                    1 <= dims.x <= 1024,
                    dims.y == dims.x,
            ;
        }
        let total_size = (dims.x * dims.y * dims.z) as usize;
        let mut data: Vec<Option<T>> = Vec::new();
        let mut i: usize = 0;
        while i < total_size
            invariant
                i <= total_size,
                total_size == Self::side() * Self::side() * Self::side(),
                data@.len() == i,
                forall|k: int| 0 <= k < i ==> data@[k] is None,
            decreases total_size - i,
        {
            data.push(None);
            i = i + 1;
        }
        proof {
            lemma_tally_zero(data@, active_w());
            lemma_tally_zero(data@, present_w());
        }
        let r = LeafNode { background_value, data, origin: bounds.min, bounds, level, active_count: 0 };
        proof {
            assert forall|c: Vec3i| r.lookup(c) is None by {
                if r.bounds.has(c) {
                    r.lemma_slot(c);
                }
            }
        }
        r
    }

    /// Voxels per axis, on each axis.
    pub fn calculate_dimensions() -> (r: Vec3i)
        requires
            LOG2 <= MAX_LOG2_CUM,
        ensures
            r.x == Self::side() && r.y == Self::side() && r.z == Self::side(),
    {
        let per_axis = extent_of(LOG2 as u32);
        Vec3i::new(per_axis, per_axis, per_axis)
    }

    /// Three times the number of voxels per axis.
    pub fn child_capacity() -> (r: usize)
        requires
            LOG2 <= MAX_LOG2_CUM,
        ensures
            r == 3 * Self::side(),
    {
        proof {
            Self::lemma_side();
        }
        3 * (extent_of(LOG2 as u32) as usize)
    }

    /// Voxels per axis, on each axis.
    pub fn dimensions(&self) -> (r: Vec3i)
        requires
            self.wf(),
        ensures
            r.x == Self::side() && r.y == Self::side() && r.z == Self::side(),
    {
        Self::calculate_dimensions()
    }

    /// Whether the number of active voxels has reached `child_capacity()`.
    pub fn is_at_capacity(&self) -> (r: bool)
        requires
            self.wf(),
        ensures
            r == (self.spec_active_count() >= 3 * Self::side()),
    {
        self.active_count >= Self::child_capacity()
    }

    /// Dense index of `coord`, or `None` outside the bounds.
    pub fn coord_to_index(&self, coord: Vec3i) -> (r: Option<usize>)
        requires
            self.wf(),
        ensures
            r == (if self.spec_bounds().has(coord) {
                Some(Self::slot_of(coord) as usize)
            } else {
                None::<usize>
            }),
            r matches Some(i) ==> i < self.spec_data().len() && i == Self::slot_of(coord),
    {
        if !self.bounds.contains(coord) {
            return None;
        }
        proof {
            Self::lemma_side();
            self.lemma_slot(coord);
            lemma_low_mask(LOG2 as nat);
            lemma_snap_local(coord.x, LOG2 as nat);
            lemma_snap_local(coord.y, LOG2 as nat);
            lemma_snap_local(coord.z, LOG2 as nat);
        }
        let dims = extent_of(LOG2 as u32);
        let i = coord.x & (dims - 1);
        let j = coord.y & (dims - 1);
        let k = coord.z & (dims - 1);
        proof {
            lemma_encode_bounds(i as int, j as int, k as int, dims as int);
            assert(0 <= j * dims <= (dims - 1) * dims) by (nonlinear_arith)
                requires
                    0 <= j < dims,
            ;
            assert(0 <= k * dims * dims <= (dims - 1) * dims * dims) by (nonlinear_arith)
                requires
                    0 <= k < dims,
            ;
            assert(dims * dims <= 1024 * 1024) by (nonlinear_arith)
                requires
                    1 <= dims <= 1024,
            ;
            assert(0 <= k * dims <= 1024 * 1024) by (nonlinear_arith)
                requires
                    1 <= dims <= 1024,
                    0 <= k < dims,
            ;
        }
        let index = i + j * dims + k * dims * dims;
        Some(index as usize)
    }

    /// Coordinate of dense index `index`.
    pub fn index_to_coord(&self, index: usize) -> (r: Vec3i)
        requires
            self.wf(),
            index < self.spec_data().len(),
            !holds_no_point(self.spec_bounds()),
        ensures
            r == Self::coord_of_slot(self.spec_origin_field(), index as int),
    {
        proof {
            Self::lemma_side();
            lemma_decode(index as int, Self::side());
        }
        let local_index = index as i32;
        let dims = self.dimensions();
        proof {
            assert(dims.y * dims.x <= 1024 * 1024) by (nonlinear_arith)
                requires
                    1 <= dims.x <= 1024,
                    dims.y == dims.x,
            ;
            assert(dims.y * dims.x == Self::side() * Self::side());
        }
        let z = local_index / (dims.y * dims.x);
        let y = (local_index % (dims.y * dims.x)) / dims.x;
        let x = local_index % dims.x;
        Vec3i::new(self.origin.x + x, self.origin.y + y, self.origin.z + z)
    }

    /// Whether `coord` lies in this leaf's bounds.
    pub fn contains_coord(&self, coord: Vec3i) -> (r: bool)
        ensures
            r == self.spec_bounds().has(coord),
    {
        self.bounds.contains(coord)
    }

    /// Removes every stored payload.
    pub fn clear(&mut self)
        requires
            old(self).wf(),
        ensures
            final(self).wf(),
            forall|c: Vec3i| #[trigger] final(self).lookup(c) is None,
            final(self).spec_active_count() == 0,
            final(self).spec_total_count() == 0,
            final(self).spec_bounds() == old(self).spec_bounds(),
            final(self).spec_bg() == old(self).spec_bg(),
            final(self).spec_level() == old(self).spec_level(),
    {
        let n = self.data.len();
        let mut i: usize = 0;
        while i < n
            invariant
                i <= n == self.data@.len(),
                self.data@.len() == old(self).data@.len(),
                self.bounds == old(self).bounds,
                self.origin == old(self).origin,
                self.level == old(self).level,
                self.background_value == old(self).background_value,
                forall|k: int| 0 <= k < i ==> #[trigger] self.data@[k] is None,
                forall|k: int| i <= k < n ==> #[trigger] self.data@[k] == old(self).data@[k],
            decreases n - i,
        {
            self.data.set(i, None);
            i = i + 1;
        }
        self.active_count = 0;
        proof {
            lemma_tally_zero(self.data@, active_w());
            lemma_tally_zero(self.data@, present_w());
            assert forall|c: Vec3i| #[trigger] self.lookup(c) is None by {
                if self.bounds.has(c) {
                    old(self).lemma_slot(c);
                }
            }
        }
    }

    /// Removes the stored payloads that are not active; the active ones stay.
    pub fn optimize(&mut self)
        requires
            old(self).wf(),
        ensures
            final(self).wf(),
            forall|c: Vec3i|
                #[trigger] final(self).lookup(c) == (if active_weight(old(self).lookup(c)) == 1 {
                    old(self).lookup(c)
                } else {
                    None
                }),
            final(self).spec_active_count() == old(self).spec_active_count(),
            final(self).spec_total_count() == old(self).spec_active_count(),
            final(self).spec_bounds() == old(self).spec_bounds(),
            final(self).spec_bg() == old(self).spec_bg(),
            final(self).spec_level() == old(self).spec_level(),
    {
        let n = self.data.len();
        let mut i: usize = 0;
        while i < n
            invariant
                i <= n == self.data@.len(),
                self.data@.len() == old(self).data@.len(),
                self.bounds == old(self).bounds,
                self.origin == old(self).origin,
                self.level == old(self).level,
                self.background_value == old(self).background_value,
                self.active_count == old(self).active_count,
                tally(self.data@, active_w()) == tally(old(self).data@, active_w()),
                forall|k: int|
                    0 <= k < i ==> #[trigger] self.data@[k] == (if active_weight(old(self).data@[k])
                        == 1 {
                        old(self).data@[k]
                    } else {
                        None
                    }),
                forall|k: int| i <= k < n ==> #[trigger] self.data@[k] == old(self).data@[k],
            decreases n - i,
        {
            let inactive = match &self.data[i] {
                Some(v) => !v.is_active(),
                None => false,
            };
            if inactive {
                proof {
                    lemma_tally_update(self.data@, i as int, None, active_w());
                }
                self.data.set(i, None);
            }
            i = i + 1;
        }
        proof {
            assert forall|k: int| 0 <= k < self.data@.len() implies #[trigger] present_w::<T>()(
                self.data@[k],
            ) == active_w::<T>()(old(self).data@[k]) by {}
            lemma_tally_pointwise(self.data@, present_w::<T>(), old(self).data@, active_w::<T>());
            assert forall|m: int|
                0 <= m < self.data@.len() && #[trigger] self.data@[m] is Some implies self.bounds.has(
                Self::coord_of_slot(self.origin, m),
            ) by {
                assert(old(self).data@[m] is Some);
            }
            assert forall|c: Vec3i|
                #[trigger] self.lookup(c) == (if active_weight(old(self).lookup(c)) == 1 {
                    old(self).lookup(c)
                } else {
                    None
                }) by {
                if self.bounds.has(c) {
                    old(self).lemma_slot(c);
                }
            }
        }
    }

    /// Bytes held by this leaf: the node itself and one slot per voxel
    /// (saturating at the largest `usize`).
    pub fn memory_usage(&self) -> (r: usize)
        ensures
            r == saturated(
                (vstd::layout::size_of::<Self>() + self.spec_data().len() * vstd::layout::size_of::<
                    Option<T>,
                >()) as int,
            ),
    {
        let node = std::mem::size_of::<Self>();
        let per_slot = std::mem::size_of::<Option<T>>();
        let n = self.data.len();
        if per_slot != 0 && n > usize::MAX / per_slot {
            proof {
                assert(n * per_slot > usize::MAX) by (nonlinear_arith)
                    requires
                        per_slot > 0,
                        n > usize::MAX / per_slot,
                ;
            }
            return usize::MAX;
        }
        proof {
            assert(n * per_slot <= usize::MAX) by (nonlinear_arith)
                requires
                    per_slot == 0 || n <= usize::MAX / per_slot,
            ;
        }
        node.saturating_add(n * per_slot)
    }

    /// Whether `e` is a stored payload with its coordinate (and active, when asked).
    closed spec fn sound_entry(&self, e: (Vec3i, T), only_active: bool) -> bool {
        self.lookup(e.0) == Some(e.1) && (only_active ==> e.1.active())
    }

    /// The stored payloads with their coordinates; only the active ones when
    /// `only_active` is set.
    #[verifier::spinoff_prover]
    fn collect(&self, only_active: bool) -> (r: Vec<(Vec3i, T)>)
        requires
            self.wf(),
        ensures
            forall|i: int| 0 <= i < r@.len() ==> self.sound_entry(#[trigger] r@[i], only_active),
            forall|c: Vec3i|
                #[trigger] self.lookup(c) is Some && (only_active ==> active_weight(self.lookup(c))
                    == 1) ==> exists|i: int| 0 <= i < r@.len() && r@[i].0 == c,
            r@.len() == tally(self.data@, pick_w::<T>(only_active)),
            forall|i: int, j: int| 0 <= i < j < r@.len() ==> r@[i].0 != r@[j].0,
    {
        let mut out: Vec<(Vec3i, T)> = Vec::new();
        let mut index: usize = 0;
        while index < self.data.len()
            invariant
                self.wf(),
                index <= self.data@.len(),
                forall|i: int| 0 <= i < out@.len() ==> self.sound_entry(#[trigger] out@[i], only_active),
                forall|i: int|
                    0 <= i < out@.len() ==> Self::slot_of((#[trigger] out@[i]).0) < index
                        && self.bounds.has(out@[i].0),
                forall|i: int, j: int| 0 <= i < j < out@.len() ==> out@[i].0 != out@[j].0,
                out@.len() == tally(self.data@.take(index as int), pick_w::<T>(only_active)),
                forall|n: int|
                    0 <= n < index && #[trigger] self.data@[n] is Some && (only_active
                        ==> active_weight(self.data@[n]) == 1) ==> exists|i: int|
                        0 <= i < out@.len() && out@[i].0 == Self::coord_of_slot(self.origin, n),
            decreases self.data@.len() - index,
        {
            let ghost prev = out@;
            proof {
                lemma_tally_take(self.data@, index as int, pick_w::<T>(only_active));
            }
            match &self.data[index] {
                Some(v) => {
                    if !only_active || v.is_active() {
                        proof {
                            assert(self.bounds.has(Self::coord_of_slot(self.origin, index as int)));
                            self.lemma_coord_of_slot(index as int);
                        }
                        let coord = self.index_to_coord(index);
                        out.push((coord, v.duplicate()));
                        proof {
                            assert(out@[out@.len() - 1].0 == coord);
                            assert forall|i: int| 0 <= i < out@.len() implies self.sound_entry(
                                #[trigger] out@[i],
                                only_active,
                            ) by {
                                if i < prev.len() {
                                    assert(out@[i] == prev[i]);
                                }
                            }
                            assert forall|i: int|
                                0 <= i < out@.len() implies Self::slot_of((#[trigger] out@[i]).0)
                                < index + 1 && self.bounds.has(out@[i].0) by {
                                if i < prev.len() {
                                    assert(out@[i] == prev[i]);
                                }
                            }
                            assert forall|i: int, j: int| 0 <= i < j < out@.len() implies out@[i].0
                                != out@[j].0 by {
                                assert(out@[i] == prev[i]);
                                if j < prev.len() {
                                    assert(out@[j] == prev[j]);
                                } else {
                                    assert(Self::slot_of(prev[i].0) < index);
                                }
                            }
                            assert forall|n: int|
                                0 <= n < index + 1 && #[trigger] self.data@[n] is Some && (
                                only_active ==> active_weight(self.data@[n]) == 1) implies exists|
                                i: int,
                            | 0 <= i < out@.len() && out@[i].0 == Self::coord_of_slot(
                                self.origin,
                                n,
                            ) by {
                                if n < index {
                                    let i0 = choose|i: int|
                                        0 <= i < prev.len() && prev[i].0 == Self::coord_of_slot(
                                            self.origin,
                                            n,
                                        );
                                    assert(out@[i0] == prev[i0]);
                                }
                            }
                        }
                    }
                },
                None => {},
            }
            index = index + 1;
        }
        proof {
            assert(self.data@.take(self.data@.len() as int) =~= self.data@);
            assert forall|c: Vec3i|
                #[trigger] self.lookup(c) is Some && (only_active ==> active_weight(self.lookup(c))
                    == 1) implies exists|i: int| 0 <= i < out@.len() && out@[i].0 == c by {
                self.lemma_slot(c);
                let n = Self::slot_of(c);
                assert(self.data@[n] is Some);
            }
        }
        out
    }
}


impl<T: VoxelData, const LOG2: usize> NodeTrait<T> for LeafNode<T, LOG2> {
    closed spec fn wf(&self) -> bool {
        &&& LOG2 <= MAX_LOG2_CUM
        &&& self.data@.len() == Self::side() * Self::side() * Self::side()
        &&& self.active_count == tally(self.data@, active_w())
        &&& self.origin == self.bounds.min
        &&& leaf_bounds_ok(self.bounds, LOG2 as nat)
        &&& forall|n: int|
            0 <= n < self.data@.len() && #[trigger] self.data@[n] is Some ==> self.bounds.has(
                Self::coord_of_slot(self.origin, n),
            )
    }

    closed spec fn lookup(&self, c: Vec3i) -> Option<T> {
        if self.bounds.has(c) {
            self.data@[Self::slot_of(c)]
        } else {
            None
        }
    }

    open spec fn in_region(&self, c: Vec3i) -> bool {
        self.spec_bounds().has(c)
    }

    open spec fn has_slot(&self, c: Vec3i) -> bool {
        self.spec_bounds().has(c)
    }

    open spec fn accepts(&self, c: Vec3i) -> bool {
        true
    }

    closed spec fn spec_bg(&self) -> T {
        self.background_value
    }

    closed spec fn spec_level(&self) -> u32 {
        self.level
    }

    closed spec fn spec_log2_cum(&self) -> nat {
        LOG2 as nat
    }

    closed spec fn spec_bounds(&self) -> Bounds3i {
        self.bounds
    }

    closed spec fn spec_active_count(&self) -> nat {
        tally(self.data@, active_w())
    }

    closed spec fn spec_total_count(&self) -> nat {
        tally(self.data@, present_w())
    }

    closed spec fn spec_child_count(&self) -> nat {
        tally(self.data@, active_w())
    }

    proof fn lemma_lookup_in_bounds(&self, c: Vec3i) {
    }

    fn level(&self) -> (r: u32) {
        self.level
    }

    fn log2_cum(&self) -> (r: u32) {
        LOG2 as u32
    }

    fn bounds(&self) -> (r: Bounds3i) {
        self.bounds
    }

    fn is_active(&self, coord: Vec3i) -> (r: bool) {
        match self.coord_to_index(coord) {
            Some(index) => match &self.data[index] {
                Some(value) => value.is_active(),
                None => false,
            },
            None => false,
        }
    }

    fn active_count(&self) -> (r: usize) {
        self.active_count
    }

    fn total_count(&self) -> (r: usize) {
        let mut count: usize = 0;
        let mut index: usize = 0;
        while index < self.data.len()
            invariant
                index <= self.data@.len(),
                count == tally(self.data@.take(index as int), present_w()),
                tally(self.data@, present_w()) <= usize::MAX,
            decreases self.data@.len() - index,
        {
            proof {
                lemma_tally_take(self.data@, index as int, present_w());
                assert forall|k: int| 0 <= k < self.data@.len() implies #[trigger] present_w::<T>()(
                    self.data@[k],
                ) <= 1 by {}
                lemma_tally_bound(self.data@.take(index as int + 1), present_w(), 1);
                lemma_tally_prefix_le(self.data@, index as int + 1, present_w());
            }
            if self.data[index].is_some() {
                count = count + 1;
            }
            index = index + 1;
        }
        proof {
            assert(self.data@.take(self.data@.len() as int) =~= self.data@);
        }
        count
    }

    fn get_voxel(&self, coord: Vec3i) -> (r: &T) {
        match self.coord_to_index(coord) {
            Some(index) => match &self.data[index] {
                Some(value) => value,
                None => &self.background_value,
            },
            None => &self.background_value,
        }
    }

    fn set_voxel(&mut self, coord: Vec3i, value: T) -> (r: Option<T>) {
        match self.coord_to_index(coord) {
            Some(index) => {
                proof {
                    self.lemma_slot(coord);
                    Self::lemma_side();
                    lemma_tally_update(self.data@, index as int, Some(value), active_w());
                    lemma_tally_update(self.data@, index as int, Some(value), present_w());
                    assert forall|k: int| 0 <= k < self.data@.len() implies #[trigger] active_w::<
                        T,
                    >()(self.data@[k]) <= 1 by {}
                    lemma_tally_bound(self.data@, active_w(), 1);
                }
                let was_active = match &self.data[index] {
                    Some(v) => v.is_active(),
                    None => false,
                };
                let is_active = value.is_active();
                let ghost before = self.data@;
                let previous = self.data[index].take();
                self.data.set(index, Some(value));
                if was_active && !is_active {
                    self.active_count = self.active_count - 1;
                } else if !was_active && is_active {
                    self.active_count = self.active_count + 1;
                }
                proof {
                    assert(self.data@ =~= before.update(index as int, Some(value)));
                    assert forall|c: Vec3i| c != coord implies #[trigger] self.lookup(c)
                        == old(self).lookup(c) by {
                        if self.bounds.has(c) {
                            old(self).lemma_slot(c);
                            assert(Self::slot_of(c) != index);
                            assert(self.data@[Self::slot_of(c)] == before[Self::slot_of(c)]);
                        }
                    }
                }
                previous
            },
            None => None,
        }
    }

    fn remove_voxel(&mut self, coord: Vec3i) -> (r: Option<T>) {
        match self.coord_to_index(coord) {
            Some(index) => {
                proof {
                    self.lemma_slot(coord);
                    lemma_tally_update(self.data@, index as int, None, active_w());
                    lemma_tally_update(self.data@, index as int, None, present_w());
                }
                let ghost before = self.data@;
                let previous = self.data[index].take();
                match &previous {
                    Some(v) => {
                        if v.is_active() {
                            self.active_count = self.active_count - 1;
                        }
                    },
                    None => {},
                }
                proof {
                    assert(self.data@ =~= before.update(index as int, None));
                    assert forall|c: Vec3i| c != coord implies #[trigger] self.lookup(c)
                        == old(self).lookup(c) by {
                        if self.bounds.has(c) {
                            old(self).lemma_slot(c);
                            assert(Self::slot_of(c) != index);
                            assert(self.data@[Self::slot_of(c)] == before[Self::slot_of(c)]);
                        }
                    }
                }
                previous
            },
            None => None,
        }
    }

    fn active_voxels(&self) -> (r: Vec<(Vec3i, T)>) {
        let r = self.collect(true);
        proof {
            assert forall|i: int| 0 <= i < r@.len() implies #[trigger] self.lookup(r@[i].0) == Some(
                r@[i].1,
            ) && r@[i].1.active() by {
                assert(self.sound_entry(r@[i], true));
            }
        }
        r
    }

    fn all_voxels(&self) -> (r: Vec<(Vec3i, T)>) {
        let r = self.collect(false);
        proof {
            assert forall|i: int| 0 <= i < r@.len() implies #[trigger] self.lookup(r@[i].0) == Some(
                r@[i].1,
            ) by {
                assert(self.sound_entry(r@[i], false));
            }
        }
        r
    }
}

impl<T: VoxelData, const LOG2: usize> ChildNodeTrait<T> for LeafNode<T, LOG2> {
    open spec fn shape_ok() -> bool {
        LOG2 <= MAX_LOG2_CUM
    }

    open spec fn spec_log2() -> nat {
        LOG2 as nat
    }

    open spec fn spec_cum() -> nat {
        LOG2 as nat
    }

    closed spec fn spec_origin(&self) -> Vec3i {
        self.origin
    }

    proof fn lemma_shape_ok() {
    }

    proof fn lemma_shape(&self) {
        Self::lemma_side();
        assert forall|k: int| 0 <= k < self.data@.len() implies #[trigger] present_w::<T>()(
            self.data@[k],
        ) <= 1 by {}
        lemma_tally_bound(self.data@, present_w(), 1);
        assert forall|k: int| 0 <= k < self.data@.len() implies #[trigger] active_w::<T>()(
            self.data@[k],
        ) <= present_w::<T>()(self.data@[k]) by {}
        lemma_tally_le(self.data@, active_w(), present_w());
    }

    fn log2() -> (r: u32) {
        LOG2 as u32
    }

    fn cum_log2() -> (r: u32) {
        LOG2 as u32
    }

    fn key(coord: Vec3i) -> (r: Vec3i) {
        key_at(coord, LOG2 as u32)
    }

    fn create(key: Vec3i, level: u32, background_value: T) -> (r: Self) {
        let dims = Self::calculate_dimensions();
        let bounds = Bounds3i::new(key, key.plus(dims));
        Self::new_with_background(level, bounds, background_value)
    }
}

impl<T: VoxelData, const LOG2: usize> NodeDiagnostics<T> for LeafNode<T, LOG2> {
    open spec fn spec_node_type(&self) -> NodeType {
        NodeType::Leaf
    }

    open spec fn spec_log2_child_size(&self) -> nat {
        LOG2 as nat
    }

    fn log2_child_size(&self) -> (r: u32) {
        LOG2 as u32
    }

    fn node_type(&self) -> (r: NodeType) {
        NodeType::Leaf
    }

    fn depth(&self) -> (r: u32) {
        self.level
    }

    fn child_count(&self) -> (r: usize) {
        self.active_count
    }
}

} // verus!
