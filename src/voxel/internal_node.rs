//! A middle level: a dense block of optional child nodes.

use vstd::prelude::*;
use crate::math::{Vec3i, Bounds3i};
use crate::voxel_data::VoxelData;
use crate::voxel::{NodeTrait, ChildNodeTrait, NodeDiagnostics, NodeType, active_weight};
use crate::grid::{
    MAX_LOG2_CUM, extent, local, snap, key_of, encode, block_fits, in_block, extent_of, key_at,
    lemma_low_mask, lemma_snap_local, lemma_snap_in_block, lemma_snap_nested, lemma_snap_floor,
    lemma_snap_aligned, lemma_encode_bounds, lemma_decode,
};
use crate::tally::{tally, lemma_tally_take, lemma_tally_update, lemma_tally_zero, lemma_tally_le, lemma_tally_bound, lemma_tally_prefix_le};
use vstd::arithmetic::power2::{pow2, lemma_pow2_adds, lemma_pow2_strictly_increases, lemma2_to64};
use vstd::arithmetic::div_mod::{lemma_fundamental_div_mod, lemma_fundamental_div_mod_converse};

verus! {

/// Internal node: a dense block of `2^LOG2` child slots per axis, each slot
/// holding an optional child of type `N`.
pub struct InternalNode<T, N, const LOG2: usize> {
    background_value: T,
    data: Vec<Option<N>>,
    origin: Vec3i,
    level: u32,
}

pub open spec fn child_active_w<T: VoxelData, N: ChildNodeTrait<T>>() -> spec_fn(Option<N>) -> nat {
    |o: Option<N>|
        match o {
            Some(n) => n.spec_active_count(),
            None => 0nat,
        }
}

pub open spec fn child_total_w<T: VoxelData, N: ChildNodeTrait<T>>() -> spec_fn(Option<N>) -> nat {
    |o: Option<N>|
        match o {
            Some(n) => n.spec_total_count(),
            None => 0nat,
        }
}

/// The child count a listing adds up: active payloads, or all stored ones.
pub open spec fn pick_cw<T: VoxelData, N: ChildNodeTrait<T>>(only_active: bool) -> spec_fn(Option<N>) -> nat {
    if only_active {
        child_active_w::<T, N>()
    } else {
        child_total_w::<T, N>()
    }
}

pub open spec fn child_present_w<N>() -> spec_fn(Option<N>) -> nat {
    |o: Option<N>|
        match o {
            Some(_) => 1nat,
            None => 0nat,
        }
}

/// Per axis: a point of an aligned block of log2 `l` at `o` lies in the child
/// block numbered `(v - o) / 2^lc`, whose corner is the point snapped at `lc`.
proof fn lemma_axis(o: i32, v: i32, l: nat, lc: nat)
    requires
        lc <= l <= 30,
        local(o, l) == 0,
        o <= v < o + extent(l),
    ensures
        local(v, l) == v - o,
        0 <= (v - o) / extent(lc) < extent((l - lc) as nat),
        snap(v, lc) == o + ((v - o) / extent(lc)) * extent(lc),
        o + ((v - o) / extent(lc)) * extent(lc) + extent(lc) <= o + extent(l),
        extent(l) == extent(lc) * extent((l - lc) as nat),
{
    lemma_low_mask(l);
    lemma_low_mask(lc);
    lemma_pow2_adds(lc, (l - lc) as nat);
    lemma_snap_in_block(v, o, l);
    lemma_snap_nested(v, lc, l);
    let u = local(v, l);
    lemma_snap_floor(u, lc);
    let sc = extent(lc);
    let k = extent((l - lc) as nat);
    lemma_fundamental_div_mod(u as int, sc);
    let q = u as int / sc;
    assert(0 <= q < k) by (nonlinear_arith)
        requires
            u == sc * q + (u as int % sc),
            0 <= u as int % sc < sc,
            0 <= u < sc * k,
            sc > 0,
    ;
    assert(q * sc + sc <= sc * k) by (nonlinear_arith)
        requires
            q < k,
            sc > 0,
    ;
}

/// Per axis, the converse: a point of child block `i` lies in the parent block
/// and is numbered `i`.
proof fn lemma_axis_back(o: i32, v: i32, i: int, l: nat, lc: nat)
    requires
        lc <= l <= 30,
        local(o, l) == 0,
        0 <= i < extent((l - lc) as nat),
        o + i * extent(lc) <= v < o + i * extent(lc) + extent(lc),
    ensures
        o <= v < o + extent(l),
        (v - o) / extent(lc) == i,
{
    lemma_low_mask(lc);
    lemma_pow2_adds(lc, (l - lc) as nat);
    let sc = extent(lc);
    let k = extent((l - lc) as nat);
    assert(i * sc + sc <= sc * k) by (nonlinear_arith)
        requires
            i < k,
            sc > 0,
    ;
    assert(0 <= i * sc) by (nonlinear_arith)
        requires
            0 <= i,
            sc > 0,
    ;
    lemma_fundamental_div_mod_converse(v - o, sc, i, v - o - i * sc);
}

impl<T: VoxelData, N: ChildNodeTrait<T>, const LOG2: usize> InternalNode<T, N, LOG2> {
    /// Cumulative log2 of this node type.
    pub open spec fn cum() -> nat {
        LOG2 as nat + N::spec_cum()
    }

    /// Child slots per axis.
    pub open spec fn side() -> int {
        extent(LOG2 as nat)
    }

    /// Voxels per axis of one child.
    pub open spec fn child_side() -> int {
        extent(N::spec_cum())
    }

    /// Dense index of the child slot that holds `c`.
    pub open spec fn child_slot(&self, c: Vec3i) -> int {
        encode(
            (c.x - self.spec_origin_field().x) / Self::child_side(),
            (c.y - self.spec_origin_field().y) / Self::child_side(),
            (c.z - self.spec_origin_field().z) / Self::child_side(),
            Self::side(),
        )
    }

    /// Lower corner of the child block in slot `n`.
    pub open spec fn child_origin(&self, n: int) -> Vec3i {
        let s = Self::side();
        let cs = Self::child_side();
        let o = self.spec_origin_field();
        Vec3i {
            x: (o.x + (n % s) * cs) as i32,
            y: (o.y + ((n % (s * s)) / s) * cs) as i32,
            z: (o.z + (n / (s * s)) * cs) as i32,
        }
    }

    pub closed spec fn spec_data(&self) -> Seq<Option<N>> {
        self.data@
    }

    pub closed spec fn spec_origin_field(&self) -> Vec3i {
        self.origin
    }

    proof fn lemma_sizes()
        requires
            N::shape_ok(),
            LOG2 as nat + N::spec_cum() <= MAX_LOG2_CUM,
        ensures
            1 <= Self::side() <= 1024,
            1 <= Self::child_side() <= 1024,
            Self::side() * Self::side() * Self::side() <= 0x4000_0000,
            extent(Self::cum()) == Self::child_side() * Self::side(),
            extent(Self::cum()) == Self::side() * Self::child_side(),
            1 <= extent(Self::cum()) <= 1024,
    {
        lemma_low_mask(LOG2 as nat);
        lemma_low_mask(N::spec_cum());
        lemma_low_mask(Self::cum());
        lemma_pow2_adds(N::spec_cum(), LOG2 as nat);
        lemma_pow2_adds(LOG2 as nat, LOG2 as nat);
        lemma_pow2_adds((2 * LOG2) as nat, LOG2 as nat);
        lemma_low_mask(3 * LOG2 as nat);
        if Self::cum() < 10 {
            lemma_pow2_strictly_increases(Self::cum(), 10);
        }
        if LOG2 < 10 {
            lemma_pow2_strictly_increases(LOG2 as nat, 10);
        }
        if N::spec_cum() < 10 {
            lemma_pow2_strictly_increases(N::spec_cum(), 10);
        }
        if 3 * LOG2 < 30 {
            lemma_pow2_strictly_increases(3 * LOG2 as nat, 30);
        }
        lemma2_to64();
        assert(Self::cum() - N::spec_cum() == LOG2);
        assert(Self::child_side() * Self::side() == Self::side() * Self::child_side())
            by (nonlinear_arith);
    }

    /// A point of this node's block: its child slot is in range, and the child
    /// block of that slot is the one that holds the point.
    proof fn lemma_child_slot(&self, c: Vec3i)
        requires
            self.wf(),
            in_block(c, self.origin, Self::cum()),
        ensures
            0 <= self.child_slot(c) < self.data@.len(),
            key_of(c, N::spec_cum()) == self.child_origin(self.child_slot(c)),
            in_block(c, key_of(c, N::spec_cum()), N::spec_cum()),
            block_fits(key_of(c, N::spec_cum()), N::spec_cum()),
            key_of(key_of(c, N::spec_cum()), N::spec_cum()) == key_of(c, N::spec_cum()),
    {
        Self::lemma_sizes();
        let l = Self::cum();
        let lc = N::spec_cum();
        let o = self.origin;
        lemma_snap_local(o.x, l);
        lemma_snap_local(o.y, l);
        lemma_snap_local(o.z, l);
        lemma_axis(o.x, c.x, l, lc);
        lemma_axis(o.y, c.y, l, lc);
        lemma_axis(o.z, c.z, l, lc);
        assert(l - lc == LOG2);
        let cs = Self::child_side();
        let i = (c.x - o.x) / cs;
        let j = (c.y - o.y) / cs;
        let k = (c.z - o.z) / cs;
        lemma_encode_bounds(i, j, k, Self::side());
        lemma_snap_floor(c.x, lc);
        lemma_snap_floor(c.y, lc);
        lemma_snap_floor(c.z, lc);
        lemma_snap_aligned(c.x, lc);
        lemma_snap_aligned(c.y, lc);
        lemma_snap_aligned(c.z, lc);
    }

    /// A point of the child block in slot `n` lies in this node's block, in slot `n`.
    proof fn lemma_point_of_child(&self, n: int, c: Vec3i)
        requires
            self.wf(),
            0 <= n < self.data@.len(),
            in_block(c, self.child_origin(n), N::spec_cum()),
        ensures
            in_block(c, self.origin, Self::cum()),
            self.child_slot(c) == n,
    {
        Self::lemma_sizes();
        let l = Self::cum();
        let lc = N::spec_cum();
        let o = self.origin;
        let s = Self::side();
        let cs = Self::child_side();
        lemma_decode(n, s);
        assert(l - lc == LOG2);
        lemma_snap_local(o.x, l);
        lemma_snap_local(o.y, l);
        lemma_snap_local(o.z, l);
        let i = n % s;
        let j = (n % (s * s)) / s;
        let k = n / (s * s);
        assert(0 <= i * cs && i * cs + cs <= s * cs) by (nonlinear_arith)
            requires
                0 <= i < s,
                cs > 0,
        ;
        assert(0 <= j * cs && j * cs + cs <= s * cs) by (nonlinear_arith)
            requires
                0 <= j < s,
                cs > 0,
        ;
        assert(0 <= k * cs && k * cs + cs <= s * cs) by (nonlinear_arith)
            requires
                0 <= k < s,
                cs > 0,
        ;
        assert(s * cs == cs * s) by (nonlinear_arith);
        lemma_axis_back(o.x, c.x, n % s, l, lc);
        lemma_axis_back(o.y, c.y, (n % (s * s)) / s, l, lc);
        lemma_axis_back(o.z, c.z, n / (s * s), l, lc);
    }

    /// What the node requires of the child in slot `n`.
    pub closed spec fn child_ok(&self, n: int, ch: N) -> bool {
        &&& ch.wf()
        &&& ch.spec_bg() == self.background_value
        &&& forall|c: Vec3i| #[trigger] ch.in_region(c) == in_block(c, self.child_origin(n), N::spec_cum())
    }

    /// Replacing the child in the slot of `c` by `new_ch`, which agrees with the
    /// old content of the slot away from `c`, changes what the node stores only at `c`.
    proof fn lemma_replace_child(old_node: Self, new_node: Self, c: Vec3i, new_ch: N)
        requires
            old_node.wf(),
            in_block(c, old_node.origin, Self::cum()),
            new_node.data@ == old_node.data@.update(old_node.child_slot(c), Some(new_ch)),
            new_node.origin == old_node.origin,
            new_node.background_value == old_node.background_value,
            new_node.level == old_node.level,
            old_node.child_ok(old_node.child_slot(c), new_ch),
            forall|c2: Vec3i|
                c2 != c ==> #[trigger] new_ch.lookup(c2) == match old_node.data@[old_node.child_slot(c)] {
                    Some(o) => o.lookup(c2),
                    None => None,
                },
            forall|c2: Vec3i|
                (old_node.data@[old_node.child_slot(c)] matches Some(o) && o.has_slot(c2))
                    ==> #[trigger] new_ch.has_slot(c2),
        ensures
            new_node.wf(),
            new_node.lookup(c) == new_ch.lookup(c),
            old_node.lookup(c) == match old_node.data@[old_node.child_slot(c)] {
                Some(o) => o.lookup(c),
                None => None,
            },
            forall|c2: Vec3i| c2 != c ==> #[trigger] new_node.lookup(c2) == old_node.lookup(c2),
            new_node.has_slot(c) == new_ch.has_slot(c),
            old_node.has_slot(c) == (old_node.data@[old_node.child_slot(c)] matches Some(o)
                && o.has_slot(c)),
            forall|c2: Vec3i| old_node.has_slot(c2) ==> #[trigger] new_node.has_slot(c2),
            (forall|c2: Vec3i|
                #[trigger] new_ch.has_slot(c2) == (old_node.data@[old_node.child_slot(c)] matches Some(o)
                    && o.has_slot(c2))) ==> forall|c2: Vec3i|
                #[trigger] new_node.has_slot(c2) == old_node.has_slot(c2),
            new_node.spec_active_count() + child_active_w::<T, N>()(
                old_node.data@[old_node.child_slot(c)],
            ) == old_node.spec_active_count() + new_ch.spec_active_count(),
            new_node.spec_total_count() + child_total_w::<T, N>()(
                old_node.data@[old_node.child_slot(c)],
            ) == old_node.spec_total_count() + new_ch.spec_total_count(),
            old_node.data@[old_node.child_slot(c)] is Some ==> new_node.spec_child_count()
                == old_node.spec_child_count(),
    {
        old_node.lemma_child_slot(c);
        let n = old_node.child_slot(c);
        lemma_tally_update(old_node.data@, n, Some(new_ch), child_present_w());
        lemma_tally_update(old_node.data@, n, Some(new_ch), child_active_w());
        lemma_tally_update(old_node.data@, n, Some(new_ch), child_total_w());
        assert forall|m: int|
            0 <= m < new_node.data@.len() && #[trigger] new_node.data@[m] is Some implies new_node.child_ok(
            m,
            new_node.data@[m]->0,
        ) by {
            if m != n {
                assert(old_node.data@[m] == new_node.data@[m]);
                assert(old_node.child_ok(m, old_node.data@[m]->0));
            }
        }
        assert forall|c2: Vec3i| c2 != c implies #[trigger] new_node.lookup(c2) == old_node.lookup(
            c2,
        ) by {
            if in_block(c2, old_node.origin, Self::cum()) {
                old_node.lemma_child_slot(c2);
            }
        }
        assert forall|c2: Vec3i| old_node.has_slot(c2) implies #[trigger] new_node.has_slot(c2) by {
            old_node.lemma_child_slot(c2);
        }
        if forall|c2: Vec3i|
            #[trigger] new_ch.has_slot(c2) == (old_node.data@[n] matches Some(o) && o.has_slot(c2)) {
            assert forall|c2: Vec3i| #[trigger] new_node.has_slot(c2) == old_node.has_slot(c2) by {
                if in_block(c2, old_node.origin, Self::cum()) {
                    old_node.lemma_child_slot(c2);
                }
            }
        }
    }

    /// Creates an empty node at `level` for the block that holds `coord`.
    pub fn from_level_and_coord(level: u32, coord: Vec3i, background_value: T) -> (r: Self)
        requires
            N::shape_ok(),
            LOG2 as nat + N::spec_cum() <= MAX_LOG2_CUM,
            block_fits(key_of(coord, Self::cum()), Self::cum()),
        ensures
            r.wf(),
            r.spec_origin_field() == key_of(coord, Self::cum()),
            r.spec_level() == level,
            r.spec_bg() == background_value,
            r.spec_active_count() == 0,
            r.spec_total_count() == 0,
            forall|c: Vec3i| r.lookup(c) is None,
            forall|c: Vec3i| !r.has_slot(c),
            forall|c: Vec3i| #[trigger] r.in_region(c) == in_block(c, key_of(coord, Self::cum()), Self::cum()),
    {
        proof {
            Self::lemma_sizes();
            lemma_snap_aligned(coord.x, Self::cum());
            lemma_snap_aligned(coord.y, Self::cum());
            lemma_snap_aligned(coord.z, Self::cum());
        }
        let total_size = Self::child_capacity();
        let origin = key_at(coord, LOG2 as u32 + N::cum_log2());
        let mut data: Vec<Option<N>> = Vec::new();
        let mut i: usize = 0;
        while i < total_size
            invariant
                i <= total_size,
                total_size == Self::side() * Self::side() * Self::side(),
                data@.len() == i,
                forall|k: int| 0 <= k < i ==> data@[k] is None,
            decreases total_size - i,
        {
            data.push(None);
            i = i + 1;
        }
        proof {
            lemma_tally_zero(data@, child_active_w());
            lemma_tally_zero(data@, child_total_w());
        }
        let r = InternalNode { background_value, data, origin, level };
        proof {
            assert forall|c: Vec3i| #[trigger] r.lookup(c) is None by {
                if in_block(c, r.origin, Self::cum()) {
                    r.lemma_child_slot(c);
                }
            }
            assert forall|c: Vec3i| !#[trigger] r.has_slot(c) by {
                if in_block(c, r.origin, Self::cum()) {
                    r.lemma_child_slot(c);
                }
            }
        }
        r
    }

    /// Child slots per axis, on each axis.
    pub fn data_dimensions() -> (r: Vec3i)
        requires
            LOG2 <= MAX_LOG2_CUM,
        ensures
            r.x == Self::side() && r.y == Self::side() && r.z == Self::side(),
    {
        let per_axis = extent_of(LOG2 as u32);
        Vec3i::new(per_axis, per_axis, per_axis)
    }

    /// Voxels per axis, on each axis.
    pub fn calculate_dimensions() -> (r: Vec3i)
        requires
            N::shape_ok(),
            LOG2 as nat + N::spec_cum() <= MAX_LOG2_CUM,
        ensures
            r.x == extent(Self::cum()) && r.y == extent(Self::cum()) && r.z == extent(Self::cum()),
    {
        let per_axis = extent_of(LOG2 as u32 + N::cum_log2());
        Vec3i::new(per_axis, per_axis, per_axis)
    }

    /// Number of child slots.
    pub fn child_capacity() -> (r: usize)
        requires
            N::shape_ok(),
            LOG2 as nat + N::spec_cum() <= MAX_LOG2_CUM,
        ensures
            r == Self::side() * Self::side() * Self::side(),
    {
        proof {
            Self::lemma_sizes();
        }
        let side = extent_of(LOG2 as u32) as usize;
        proof {
            assert(side * side <= 1024 * 1024) by (nonlinear_arith)
                requires
                    1 <= side <= 1024,
            ;
        }
        side * side * side
    }

    /// Voxels per axis, on each axis.
    pub fn dimensions(&self) -> (r: Vec3i)
        requires
            self.wf(),
        ensures
            r.x == extent(Self::cum()) && r.y == extent(Self::cum()) && r.z == extent(Self::cum()),
    {
        Self::calculate_dimensions()
    }

    /// Whether the number of active voxels has reached `child_capacity()`.
    pub fn is_at_capacity(&self) -> (r: bool)
        requires
            self.wf(),
        ensures
            r == (self.spec_active_count() >= Self::side() * Self::side() * Self::side()),
    {
        proof {
            self.lemma_counts_bounded();
        }
        self.active_count() >= Self::child_capacity()
    }

    proof fn lemma_counts_bounded(&self)
        requires
            self.wf(),
        ensures
            self.spec_active_count() <= self.spec_total_count(),
            self.spec_total_count() <= extent(Self::cum()) * extent(Self::cum()) * extent(Self::cum()),
            extent(Self::cum()) * extent(Self::cum()) * extent(Self::cum()) <= 0x4000_0000,
    {
        Self::lemma_sizes();
        let cs = Self::child_side();
        let b = (cs * cs * cs) as nat;
        assert forall|k: int| 0 <= k < self.data@.len() implies #[trigger] child_total_w::<T, N>()(
            self.data@[k],
        ) <= b && child_active_w::<T, N>()(self.data@[k]) <= child_total_w::<T, N>()(self.data@[k]) by {
            if self.data@[k] is Some {
                let ch = self.data@[k]->0;
                assert(self.child_ok(k, ch));
                ch.lemma_shape();
            }
        }
        lemma_tally_bound(self.data@, child_total_w(), b);
        lemma_tally_le(self.data@, child_active_w(), child_total_w());
        let s = Self::side();
        let e = extent(Self::cum());
        assert(e * e * e == (s * s * s) * (cs * cs * cs)) by (nonlinear_arith)
            requires
                e == cs * s,
        ;
        assert(e * e * e <= 1024 * 1024 * 1024) by (nonlinear_arith)
            requires
                1 <= e <= 1024,
        ;
        lemma_low_mask(Self::cum());
        assert(e * e * e <= 0x4000_0000) by (nonlinear_arith)
            requires
                e == pow2(Self::cum()),
                Self::cum() <= 10,
                1 <= e <= 1024,
        ;
    }

    /// Dense index of the child slot holding `coord`, or `None` outside the block.
    pub fn coord_to_index(&self, coord: Vec3i) -> (r: Option<usize>)
        requires
            self.wf(),
        ensures
            r == (if in_block(coord, self.spec_origin_field(), Self::cum()) {
                Some(self.child_slot(coord) as usize)
            } else {
                None::<usize>
            }),
            r matches Some(i) ==> i < self.spec_data().len() && i == self.child_slot(coord),
            r matches Some(i) ==> i < Self::side() * Self::side() * Self::side(),
            r matches Some(i) ==> i == encode(
                local(coord.x, Self::cum()) as int / Self::child_side(),
                local(coord.y, Self::cum()) as int / Self::child_side(),
                local(coord.z, Self::cum()) as int / Self::child_side(),
                Self::side(),
            ),
            r matches Some(i) ==> self.child_origin(i as int) == key_of(coord, N::spec_cum())
                && in_block(coord, key_of(coord, N::spec_cum()), N::spec_cum()),
    {
        if !self.contains_coord(coord) {
            return None;
        }
        proof {
            Self::lemma_sizes();
            self.lemma_child_slot(coord);
            let l = Self::cum();
            let lc = N::spec_cum();
            lemma_snap_local(self.origin.x, l);
            lemma_snap_local(self.origin.y, l);
            lemma_snap_local(self.origin.z, l);
            lemma_axis(self.origin.x, coord.x, l, lc);
            lemma_axis(self.origin.y, coord.y, l, lc);
            lemma_axis(self.origin.z, coord.z, l, lc);
            lemma_low_mask(l);
        }
        let log2 = LOG2 as u32 + N::cum_log2();
        let child_log2 = N::cum_log2();
        let size = extent_of(log2);
        let child_size = extent_of(child_log2);
        let side = extent_of(LOG2 as u32);
        let i = (coord.x & (size - 1)) / child_size;
        let j = (coord.y & (size - 1)) / child_size;
        let k = (coord.z & (size - 1)) / child_size;
        proof {
            lemma_encode_bounds(i as int, j as int, k as int, side as int);
            assert(0 <= j * side <= 1024 * 1024) by (nonlinear_arith)
                requires
                    1 <= side <= 1024,
                    0 <= j < side,
            ;
            assert(0 <= k * side <= 1024 * 1024) by (nonlinear_arith)
                requires
                    1 <= side <= 1024,
                    0 <= k < side,
            ;
        }
        let index = i + j * side + k * side * side;
        Some(index as usize)
    }

    /// Lower corner of the child block in slot `index`.
    pub fn index_to_coord(&self, index: usize) -> (r: Vec3i)
        requires
            self.wf(),
            index < self.spec_data().len(),
        ensures
            r == self.child_origin(index as int),
    {
        proof {
            Self::lemma_sizes();
            lemma_decode(index as int, Self::side());
        }
        let local_index = index as i32;
        let dimensions = Self::data_dimensions();
        let child_size = extent_of(N::cum_log2());
        proof {
            assert(dimensions.y * dimensions.x <= 1024 * 1024) by (nonlinear_arith)
                requires
                    1 <= dimensions.x <= 1024,
                    dimensions.y == dimensions.x,
            ;
            assert(dimensions.y * dimensions.x == Self::side() * Self::side());
        }
        let z = local_index / (dimensions.y * dimensions.x);
        let y = (local_index % (dimensions.y * dimensions.x)) / dimensions.x;
        let x = local_index % dimensions.x;
        proof {
            let s = Self::side();
            let cs = Self::child_side();
            assert(0 <= x * cs && x * cs + cs <= s * cs) by (nonlinear_arith)
                requires
                    0 <= x < s,
                    cs > 0,
            ;
            assert(0 <= y * cs && y * cs + cs <= s * cs) by (nonlinear_arith)
                requires
                    0 <= y < s,
                    cs > 0,
            ;
            assert(0 <= z * cs && z * cs + cs <= s * cs) by (nonlinear_arith)
                requires
                    0 <= z < s,
                    cs > 0,
            ;
        }
        Vec3i::new(
            self.origin.x + x * child_size,
            self.origin.y + y * child_size,
            self.origin.z + z * child_size,
        )
    }

    /// Whether `coord` lies in this node's block.
    pub fn contains_coord(&self, coord: Vec3i) -> (r: bool)
        requires
            self.wf(),
        ensures
            r == in_block(coord, self.spec_origin_field(), Self::cum()),
            r == self.spec_bounds().has(coord),
    {
        proof {
            Self::lemma_sizes();
        }
        self.bounds().contains(coord)
    }

    /// The child whose block holds `coord`, if it exists.
    pub fn find_child(&self, coord: Vec3i) -> (r: Option<&N>)
        requires
            self.wf(),
        ensures
            match r {
                Some(ch) => in_block(coord, self.spec_origin_field(), Self::cum())
                    && self.spec_data()[self.child_slot(coord)] == Some(*ch) && ch.wf()
                    && ch.spec_bg() == self.spec_bg(),
                None => !in_block(coord, self.spec_origin_field(), Self::cum())
                    || self.spec_data()[self.child_slot(coord)] is None,
            },
            r is None ==> !self.has_slot(coord),
            r matches Some(ch) ==> self.has_slot(coord) == ch.has_slot(coord),
    {
        match self.coord_to_index(coord) {
            Some(index) => match &self.data[index] {
                Some(child) => {
                    proof {
                        assert(self.data@[index as int] is Some);
                        assert(self.child_ok(index as int, *child));
                    }
                    Some(child)
                },
                None => None,
            },
            None => None,
        }
    }

    /// Drops every child.
    pub fn clear(&mut self)
        requires
            old(self).wf(),
        ensures
            final(self).wf(),
            forall|c: Vec3i| #[trigger] final(self).lookup(c) is None,
            forall|c: Vec3i| !#[trigger] final(self).has_slot(c),
            final(self).spec_active_count() == 0,
            final(self).spec_total_count() == 0,
            final(self).spec_child_count() == 0,
            final(self).spec_bounds() == old(self).spec_bounds(),
            final(self).spec_bg() == old(self).spec_bg(),
            final(self).spec_level() == old(self).spec_level(),
    {
        let n = self.data.len();
        let mut i: usize = 0;
        while i < n
            invariant
                i <= n == self.data@.len(),
                self.data@.len() == old(self).data@.len(),
                self.origin == old(self).origin,
                self.level == old(self).level,
                self.background_value == old(self).background_value,
                forall|k: int| 0 <= k < i ==> #[trigger] self.data@[k] is None,
            decreases n - i,
        {
            self.data.set(i, None);
            i = i + 1;
        }
        proof {
            lemma_tally_zero(self.data@, child_active_w());
            lemma_tally_zero(self.data@, child_total_w());
            lemma_tally_zero(self.data@, child_present_w());
            assert forall|c: Vec3i| #[trigger] self.lookup(c) is None && !self.has_slot(c) by {
                if in_block(c, self.origin, Self::cum()) {
                    old(self).lemma_child_slot(c);
                }
            }
            assert forall|c: Vec3i| !#[trigger] self.has_slot(c) by {
                if in_block(c, self.origin, Self::cum()) {
                    old(self).lemma_child_slot(c);
                }
            }
        }
    }

    /// Whether `slots` numbers, in increasing order, the occupied child slots
    /// that the entries of `children` come from: each entry is the lower
    /// corner of that slot's block with the child stored there.
    pub open spec fn children_of_slots(&self, children: Seq<(Vec3i, &N)>, slots: Seq<int>) -> bool {
        &&& slots.len() == children.len()
        &&& forall|k: int|
            0 <= k < slots.len() ==> {
                &&& 0 <= #[trigger] slots[k] < self.spec_data().len()
                &&& self.spec_data()[slots[k]] == Some(*children[k].1)
                &&& children[k].0 == self.child_origin(slots[k])
            }
        &&& forall|k1: int, k2: int| 0 <= k1 < k2 < slots.len() ==> slots[k1] < slots[k2]
    }

    /// Every child with the lower corner of its block, in slot order.
    pub fn all_children(&self) -> (r: Vec<(Vec3i, &N)>)
        requires
            self.wf(),
        ensures
            r@.len() == self.spec_child_count(),
            exists|slots: Seq<int>| self.children_of_slots(r@, slots),
            forall|n: int|
                0 <= n < self.spec_data().len() && #[trigger] self.spec_data()[n] is Some ==> exists|
                    k: int,
                | 0 <= k < r@.len() && r@[k].0 == self.child_origin(n),
    {
        let mut out: Vec<(Vec3i, &N)> = Vec::new();
        let ghost mut slots: Seq<int> = Seq::empty();
        let mut index: usize = 0;
        while index < self.data.len()
            invariant
                self.wf(),
                index <= self.data@.len(),
                out@.len() == tally(self.data@.take(index as int), child_present_w()),
                self.children_of_slots(out@, slots),
                forall|k: int| 0 <= k < slots.len() ==> #[trigger] slots[k] < index,
                forall|n: int|
                    0 <= n < index && #[trigger] self.data@[n] is Some ==> exists|k: int|
                        0 <= k < out@.len() && out@[k].0 == self.child_origin(n),
            decreases self.data@.len() - index,
        {
            proof {
                lemma_tally_take(self.data@, index as int, child_present_w());
            }
            match &self.data[index] {
                Some(child) => {
                    let origin = self.index_to_coord(index);
                    let ghost prev = out@;
                    let ghost prev_slots = slots;
                    out.push((origin, child));
                    proof {
                        slots = slots.push(index as int);
                        assert forall|k: int| 0 <= k < slots.len() implies {
                            &&& 0 <= #[trigger] slots[k] < self.spec_data().len()
                            &&& self.spec_data()[slots[k]] == Some(*out@[k].1)
                            &&& out@[k].0 == self.child_origin(slots[k])
                        } by {
                            if k < prev_slots.len() {
                                assert(slots[k] == prev_slots[k]);
                                assert(out@[k] == prev[k]);
                            }
                        }
                        assert forall|k1: int, k2: int| 0 <= k1 < k2 < slots.len() implies slots[k1]
                            < slots[k2] by {
                            assert(slots[k1] == prev_slots[k1]);
                            if k2 < prev_slots.len() {
                                assert(slots[k2] == prev_slots[k2]);
                            }
                        }
                        assert forall|k: int| 0 <= k < slots.len() implies #[trigger] slots[k] < index
                            + 1 by {
                            if k < prev_slots.len() {
                                assert(slots[k] == prev_slots[k]);
                            }
                        }
                        assert forall|n: int|
                            0 <= n < index + 1 && #[trigger] self.data@[n] is Some implies exists|k: int|
                                0 <= k < out@.len() && out@[k].0 == self.child_origin(n) by {
                            if n < index {
                                let k0 = choose|k: int|
                                    0 <= k < prev.len() && prev[k].0 == self.child_origin(n);
                                assert(out@[k0] == prev[k0]);
                            } else {
                                assert(out@[prev.len() as int].0 == self.child_origin(n));
                            }
                        }
                    }
                },
                None => {},
            }
            index = index + 1;
        }
        proof {
            assert(self.data@.take(self.data@.len() as int) =~= self.data@);
            assert(self.children_of_slots(out@, slots));
        }
        out
    }

    /// Bytes held by this node: the node itself and one slot per child
    /// position (saturating at the largest `usize`); children not included.
    pub fn memory_usage(&self) -> (r: usize)
        ensures
            r == crate::voxel::leaf_node::saturated(
                (vstd::layout::size_of::<Self>() + self.spec_data().len() * vstd::layout::size_of::<
                    Option<N>,
                >()) as int,
            ),
    {
        let node = std::mem::size_of::<Self>();
        let per_slot = std::mem::size_of::<Option<N>>();
        let n = self.data.len();
        if per_slot != 0 && n > usize::MAX / per_slot {
            proof {
                assert(n * per_slot > usize::MAX) by (nonlinear_arith)
                    requires
                        per_slot > 0,
                        n > usize::MAX / per_slot,
                ;
            }
            return usize::MAX;
        }
        proof {
            assert(n * per_slot <= usize::MAX) by (nonlinear_arith)
                requires
                    per_slot == 0 || n <= usize::MAX / per_slot,
            ;
        }
        node.saturating_add(n * per_slot)
    }

    /// The stored payloads with their coordinates; only the active ones when
    /// `only_active` is set.
    fn collect(&self, only_active: bool) -> (r: Vec<(Vec3i, T)>)
        requires
            self.wf(),
        ensures
            forall|i: int|
                0 <= i < r@.len() ==> self.lookup(#[trigger] r@[i].0) == Some(r@[i].1) && (
                only_active ==> r@[i].1.active()),
            forall|c: Vec3i|
                #[trigger] self.lookup(c) is Some && (only_active ==> active_weight(self.lookup(c))
                    == 1) ==> exists|i: int| 0 <= i < r@.len() && r@[i].0 == c,
            r@.len() == tally(self.data@, pick_cw::<T, N>(only_active)),
            forall|i: int, j: int| 0 <= i < j < r@.len() ==> r@[i].0 != r@[j].0,
    {
        let mut out: Vec<(Vec3i, T)> = Vec::new();
        let mut index: usize = 0;
        proof {
            assert forall|c: Vec3i| in_block(c, self.origin, Self::cum()) implies #[trigger] self.child_slot(c)
                >= 0 by {
                self.lemma_child_slot(c);
            }
        }
        while index < self.data.len()
            invariant
                self.wf(),
                index <= self.data@.len(),
                forall|c: Vec3i| in_block(c, self.origin, Self::cum()) ==> #[trigger] self.child_slot(c) >= 0,
                forall|i: int|
                    0 <= i < out@.len() ==> self.lookup(#[trigger] out@[i].0) == Some(out@[i].1) && (
                    only_active ==> out@[i].1.active()),
                forall|c: Vec3i|
                    in_block(c, self.origin, Self::cum()) && self.child_slot(c) < index
                        && #[trigger] self.lookup(c) is Some && (only_active ==> active_weight(
                        self.lookup(c),
                    ) == 1) ==> exists|i: int| 0 <= i < out@.len() && out@[i].0 == c,
                out@.len() == tally(self.data@.take(index as int), pick_cw::<T, N>(only_active)),
                forall|i: int|
                    0 <= i < out@.len() ==> in_block((#[trigger] out@[i]).0, self.origin, Self::cum())
                        && self.child_slot(out@[i].0) < index,
                forall|i: int, j: int| 0 <= i < j < out@.len() ==> out@[i].0 != out@[j].0,
            decreases self.data@.len() - index,
        {
            let ghost prev = out@;
            proof {
                lemma_tally_take(self.data@, index as int, pick_cw::<T, N>(only_active));
            }
            match &self.data[index] {
                Some(child) => {
                    proof {
                        assert(self.data@[index as int] is Some);
                        assert(self.child_ok(index as int, *child));
                    }
                    let mut part = if only_active {
                        child.active_voxels()
                    } else {
                        child.all_voxels()
                    };
                    let ghost part0 = part@;
                    out.append(&mut part);
                    proof {
                        assert(out@ =~= prev + part0);
                        assert forall|i: int| 0 <= i < out@.len() implies self.lookup(
                            #[trigger] out@[i].0,
                        ) == Some(out@[i].1) && (only_active ==> out@[i].1.active()) by {
                            if i < prev.len() {
                                assert(out@[i] == prev[i]);
                            } else {
                                let c = out@[i].0;
                                assert(out@[i] == part0[i - prev.len()]);
                                child.lemma_lookup_in_bounds(c);
                                self.lemma_point_of_child(index as int, c);
                            }
                        }
                        assert forall|c: Vec3i|
                            in_block(c, self.origin, Self::cum()) && self.child_slot(c) < index + 1
                                && #[trigger] self.lookup(c) is Some && (only_active ==> active_weight(
                                self.lookup(c),
                            ) == 1) implies exists|i: int| 0 <= i < out@.len() && out@[i].0 == c by {
                            if self.child_slot(c) == index {
                                let j = choose|j: int| 0 <= j < part0.len() && part0[j].0 == c;
                                assert(out@[prev.len() + j] == part0[j]);
                            } else {
                                let i0 = choose|i: int| 0 <= i < prev.len() && prev[i].0 == c;
                                assert(out@[i0] == prev[i0]);
                            }
                        }
                        assert forall|i: int|
                            0 <= i < out@.len() implies in_block((#[trigger] out@[i]).0, self.origin, Self::cum())
                                && self.child_slot(out@[i].0) < index + 1 by {
                            if i < prev.len() {
                                assert(out@[i] == prev[i]);
                            } else {
                                let c = out@[i].0;
                                assert(out@[i] == part0[i - prev.len()]);
                                child.lemma_lookup_in_bounds(c);
                                self.lemma_point_of_child(index as int, c);
                            }
                        }
                        assert forall|i: int, j: int| 0 <= i < j < out@.len() implies out@[i].0
                            != out@[j].0 by {
                            if j < prev.len() {
                                assert(out@[i] == prev[i]);
                                assert(out@[j] == prev[j]);
                            } else if i >= prev.len() {
                                assert(out@[i] == part0[i - prev.len()]);
                                assert(out@[j] == part0[j - prev.len()]);
                            } else {
                                assert(out@[i] == prev[i]);
                                let c = out@[j].0;
                                assert(out@[j] == part0[j - prev.len()]);
                                child.lemma_lookup_in_bounds(c);
                                self.lemma_point_of_child(index as int, c);
                            }
                        }
                    }
                },
                None => {
                    proof {
                        assert forall|c: Vec3i|
                            in_block(c, self.origin, Self::cum()) && self.child_slot(c) < index + 1
                                && #[trigger] self.lookup(c) is Some && (only_active ==> active_weight(
                                self.lookup(c),
                            ) == 1) implies exists|i: int| 0 <= i < out@.len() && out@[i].0 == c by {
                            if self.child_slot(c) == index {
                                assert(self.data@[index as int] is None);
                            }
                        }
                    }
                },
            }
            index = index + 1;
        }
        proof {
            assert(self.data@.take(self.data@.len() as int) =~= self.data@);
        }
        proof {
            assert forall|c: Vec3i|
                #[trigger] self.lookup(c) is Some && (only_active ==> active_weight(self.lookup(c))
                    == 1) implies exists|i: int| 0 <= i < out@.len() && out@[i].0 == c by {
                self.lemma_child_slot(c);
            }
        }
        out
    }
}

impl<T: VoxelData, N: ChildNodeTrait<T>, const LOG2: usize> NodeTrait<T> for InternalNode<
    T,
    N,
    LOG2,
> {
    closed spec fn wf(&self) -> bool {
        &&& N::shape_ok()
        &&& LOG2 as nat + N::spec_cum() <= MAX_LOG2_CUM
        &&& self.data@.len() == Self::side() * Self::side() * Self::side()
        &&& key_of(self.origin, Self::cum()) == self.origin
        &&& block_fits(self.origin, Self::cum())
        &&& forall|n: int|
            0 <= n < self.data@.len() && #[trigger] self.data@[n] is Some ==> self.child_ok(
                n,
                self.data@[n]->0,
            )
    }

    closed spec fn lookup(&self, c: Vec3i) -> Option<T> {
        if in_block(c, self.origin, Self::cum()) {
            match self.data@[self.child_slot(c)] {
                Some(ch) => ch.lookup(c),
                None => None,
            }
        } else {
            None
        }
    }

    open spec fn in_region(&self, c: Vec3i) -> bool {
        in_block(c, self.spec_origin_field(), Self::cum())
    }

    open spec fn has_slot(&self, c: Vec3i) -> bool {
        &&& in_block(c, self.spec_origin_field(), Self::cum())
        &&& self.spec_data()[self.child_slot(c)] matches Some(ch)
        &&& ch.has_slot(c)
    }

    open spec fn accepts(&self, c: Vec3i) -> bool {
        true
    }

    closed spec fn spec_bg(&self) -> T {
        self.background_value
    }

    closed spec fn spec_level(&self) -> u32 {
        self.level
    }

    closed spec fn spec_log2_cum(&self) -> nat {
        Self::cum()
    }

    open spec fn spec_bounds(&self) -> Bounds3i {
        let e = extent(Self::cum());
        let o = self.spec_origin_field();
        Bounds3i {
            min: o,
            max: Vec3i { x: (o.x + e) as i32, y: (o.y + e) as i32, z: (o.z + e) as i32 },
        }
    }

    closed spec fn spec_active_count(&self) -> nat {
        tally(self.data@, child_active_w())
    }

    closed spec fn spec_total_count(&self) -> nat {
        tally(self.data@, child_total_w())
    }

    closed spec fn spec_child_count(&self) -> nat {
        tally(self.data@, child_present_w())
    }

    proof fn lemma_lookup_in_bounds(&self, c: Vec3i) {
        if in_block(c, self.origin, Self::cum()) {
            self.lemma_child_slot(c);
            let n = self.child_slot(c);
            if self.data@[n] is Some {
                assert(self.child_ok(n, self.data@[n]->0));
                self.data@[n]->0.lemma_lookup_in_bounds(c);
            }
        }
    }

    fn level(&self) -> (r: u32) {
        self.level
    }

    fn log2_cum(&self) -> (r: u32) {
        proof {
            Self::lemma_sizes();
        }
        LOG2 as u32 + N::cum_log2()
    }

    fn bounds(&self) -> (r: Bounds3i) {
        proof {
            Self::lemma_sizes();
        }
        let e = extent_of(LOG2 as u32 + N::cum_log2());
        Bounds3i::new(
            self.origin,
            Vec3i::new(self.origin.x + e, self.origin.y + e, self.origin.z + e),
        )
    }

    fn is_active(&self, coord: Vec3i) -> (r: bool) {
        match self.find_child(coord) {
            Some(child) => child.is_active(coord),
            None => false,
        }
    }

    fn active_count(&self) -> (r: usize) {
        let mut count: usize = 0;
        let mut index: usize = 0;
        while index < self.data.len()
            invariant
                self.wf(),
                index <= self.data@.len(),
                count == tally(self.data@.take(index as int), child_active_w()),
                tally(self.data@, child_active_w()) <= usize::MAX,
            decreases self.data@.len() - index,
        {
            proof {
                lemma_tally_take(self.data@, index as int, child_active_w());
                lemma_tally_prefix_le(self.data@, index as int + 1, child_active_w());
            }
            match &self.data[index] {
                Some(child) => {
                    proof {
                        child.lemma_shape();
                        assert(self.data@[index as int] is Some);
                    }
                    count = count + child.active_count();
                },
                None => {},
            }
            index = index + 1;
        }
        proof {
            assert(self.data@.take(self.data@.len() as int) =~= self.data@);
        }
        count
    }

    fn total_count(&self) -> (r: usize) {
        let mut count: usize = 0;
        let mut index: usize = 0;
        while index < self.data.len()
            invariant
                self.wf(),
                index <= self.data@.len(),
                count == tally(self.data@.take(index as int), child_total_w()),
                tally(self.data@, child_total_w()) <= usize::MAX,
            decreases self.data@.len() - index,
        {
            proof {
                lemma_tally_take(self.data@, index as int, child_total_w());
                lemma_tally_prefix_le(self.data@, index as int + 1, child_total_w());
            }
            match &self.data[index] {
                Some(child) => {
                    proof {
                        child.lemma_shape();
                        assert(self.data@[index as int] is Some);
                    }
                    count = count + child.total_count();
                },
                None => {},
            }
            index = index + 1;
        }
        proof {
            assert(self.data@.take(self.data@.len() as int) =~= self.data@);
        }
        count
    }

    fn get_voxel(&self, coord: Vec3i) -> (r: &T) {
        match self.find_child(coord) {
            Some(child) => child.get_voxel(coord),
            None => &self.background_value,
        }
    }

    fn set_voxel(&mut self, coord: Vec3i, value: T) -> (r: Option<T>) {
        match self.coord_to_index(coord) {
            None => None,
            Some(index) => {
                proof {
                    self.lemma_child_slot(coord);
                    Self::lemma_sizes();
                }
                let ghost before = self.data@;
                let slot = self.data[index].take();
                match slot {
                    Some(mut child) => {
                        proof {
                            assert(before[index as int] is Some);
                            assert(old(self).child_ok(index as int, child));
                            child.lemma_shape();
                            assert(child.in_region(coord));
                        }
                        let previous = child.set_voxel(coord, value);
                        let ghost new_child = child;
                        self.data.set(index, Some(child));
                        proof {
                            assert(self.data@ =~= before.update(index as int, Some(new_child)));
                            Self::lemma_replace_child(*old(self), *self, coord, new_child);
                        }
                        previous
                    },
                    None => {
                        if self.background_value.same_as(&value) {
                            proof {
                                assert(self.data@ =~= before);
                            }
                            None
                        } else {
                            let key = N::key(coord);
                            // levels grow by one going down, saturating at the largest `u32`
                            let child_level = if self.level < u32::MAX {
                                self.level + 1
                            } else {
                                self.level
                            };
                            let mut child = N::create(
                                key,
                                child_level,
                                self.background_value.duplicate(),
                            );
                            proof {
                                child.lemma_shape();
                                assert(child.in_region(coord));
                            }
                            let previous = child.set_voxel(coord, value);
                            let ghost new_child = child;
                            self.data.set(index, Some(child));
                            proof {
                                assert(self.data@ =~= before.update(index as int, Some(new_child)));
                                Self::lemma_replace_child(*old(self), *self, coord, new_child);
                            }
                            previous
                        }
                    },
                }
            },
        }
    }

    fn remove_voxel(&mut self, coord: Vec3i) -> (r: Option<T>) {
        match self.coord_to_index(coord) {
            None => None,
            Some(index) => {
                proof {
                    self.lemma_child_slot(coord);
                }
                let ghost before = self.data@;
                let slot = self.data[index].take();
                match slot {
                    Some(mut child) => {
                        proof {
                            assert(before[index as int] is Some);
                            assert(old(self).child_ok(index as int, child));
                        }
                        let previous = child.remove_voxel(coord);
                        let ghost new_child = child;
                        self.data.set(index, Some(child));
                        proof {
                            assert(self.data@ =~= before.update(index as int, Some(new_child)));
                            Self::lemma_replace_child(*old(self), *self, coord, new_child);
                        }
                        previous
                    },
                    None => {
                        proof {
                            assert(self.data@ =~= before);
                        }
                        None
                    },
                }
            },
        }
    }

    fn active_voxels(&self) -> (r: Vec<(Vec3i, T)>) {
        self.collect(true)
    }

    fn all_voxels(&self) -> (r: Vec<(Vec3i, T)>) {
        self.collect(false)
    }
}

impl<T: VoxelData, N: ChildNodeTrait<T>, const LOG2: usize> ChildNodeTrait<T> for InternalNode<
    T,
    N,
    LOG2,
> {
    open spec fn shape_ok() -> bool {
        N::shape_ok() && LOG2 as nat + N::spec_cum() <= MAX_LOG2_CUM
    }

    open spec fn spec_log2() -> nat {
        LOG2 as nat
    }

    open spec fn spec_cum() -> nat {
        LOG2 as nat + N::spec_cum()
    }

    closed spec fn spec_origin(&self) -> Vec3i {
        self.origin
    }

    proof fn lemma_shape_ok() {
    }

    proof fn lemma_shape(&self) {
        self.lemma_counts_bounded();
    }

    fn log2() -> (r: u32) {
        LOG2 as u32
    }

    fn cum_log2() -> (r: u32) {
        LOG2 as u32 + N::cum_log2()
    }

    fn key(coord: Vec3i) -> (r: Vec3i) {
        key_at(coord, LOG2 as u32 + N::cum_log2())
    }

    fn create(key: Vec3i, level: u32, background_value: T) -> (r: Self) {
        let r = Self::from_level_and_coord(level, key, background_value);
        proof {
            Self::lemma_sizes();
        }
        r
    }
}

impl<T: VoxelData, N: ChildNodeTrait<T>, const LOG2: usize> NodeDiagnostics<T> for InternalNode<
    T,
    N,
    LOG2,
> {
    open spec fn spec_node_type(&self) -> NodeType {
        NodeType::Internal
    }

    open spec fn spec_log2_child_size(&self) -> nat {
        LOG2 as nat
    }

    fn log2_child_size(&self) -> (r: u32) {
        LOG2 as u32
    }

    fn node_type(&self) -> (r: NodeType) {
        NodeType::Internal
    }

    fn depth(&self) -> (r: u32) {
        self.level
    }

    fn child_count(&self) -> (r: usize) {
        proof {
            assert forall|k: int| 0 <= k < self.data@.len() implies #[trigger] child_present_w::<N>()(
                self.data@[k],
            ) <= 1 by {}
            lemma_tally_bound(self.data@, child_present_w(), 1);
            Self::lemma_sizes();
        }
        let mut count: usize = 0;
        let mut index: usize = 0;
        while index < self.data.len()
            invariant
                index <= self.data@.len(),
                count == tally(self.data@.take(index as int), child_present_w()),
                tally(self.data@, child_present_w()) <= usize::MAX,
            decreases self.data@.len() - index,
        {
            proof {
                lemma_tally_take(self.data@, index as int, child_present_w());
                lemma_tally_prefix_le(self.data@, index as int + 1, child_present_w());
            }
            if self.data[index].is_some() {
                count = count + 1;
            }
            index = index + 1;
        }
        proof {
            assert(self.data@.take(self.data@.len() as int) =~= self.data@);
        }
        count
    }
}

} // verus!
