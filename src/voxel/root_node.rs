//! The top level: a sparse map from root-slot origins to child subtrees.

use vstd::prelude::*;
use std::collections::HashMap;
use crate::math::{Vec3i, Bounds3i};
use crate::voxel_data::VoxelData;
use crate::voxel::{NodeTrait, ChildNodeTrait, NodeDiagnostics, NodeType, VoxelError, active_weight, present_weight};
use crate::grid::{MAX_LOG2_CUM, key_of, block_fits, in_block, lemma_snap_floor, lemma_snap_aligned};
use crate::tally::{tally, lemma_tally_take, lemma_tally_push, lemma_tally_update, lemma_tally_prefix_le};

verus! {

broadcast use vstd::std_specs::hash::group_hash_axioms;

/// The hash-map key standing for a root-slot origin: its three components'
/// bits side by side.
pub open spec fn key_code(k: Vec3i) -> u128 {
    (((k.x as u32) as u128) << 64u128) | (((k.y as u32) as u128) << 32u128) | ((k.z as u32) as u128)
}

proof fn lemma_code_bits(x1: i32, y1: i32, z1: i32, x2: i32, y2: i32, z2: i32)
    by (bit_vector)
    requires
        (((x1 as u32) as u128) << 64u128) | (((y1 as u32) as u128) << 32u128) | ((z1 as u32) as u128)
            == (((x2 as u32) as u128) << 64u128) | (((y2 as u32) as u128) << 32u128) | ((z2 as u32) as u128),
    ensures
        x1 == x2 && y1 == y2 && z1 == z2,
{
}

/// Distinct origins have distinct keys.
pub proof fn lemma_key_code_injective(a: Vec3i, b: Vec3i)
    requires
        key_code(a) == key_code(b),
    ensures
        a == b,
{
    lemma_code_bits(a.x, a.y, a.z, b.x, b.y, b.z);
}

fn key_code_of(k: Vec3i) -> (r: u128)
    ensures
        r == key_code(k),
{
    (((k.x as u32) as u128) << 64u128) | (((k.y as u32) as u128) << 32u128) | ((k.z as u32) as u128)
}

/// Union of the bounds of a sequence of nodes, starting from the empty box.
pub open spec fn union_bounds<T: VoxelData, N: NodeTrait<T>>(s: Seq<N>) -> Bounds3i
    decreases s.len(),
{
    if s.len() == 0 {
        Bounds3i::spec_empty()
    } else {
        union_bounds::<T, N>(s.drop_last()).spec_union(s.last().spec_bounds())
    }
}

proof fn lemma_union_bounds_has<T: VoxelData, N: NodeTrait<T>>(s: Seq<N>, i: int, c: Vec3i)
    requires
        0 <= i < s.len(),
        s[i].spec_bounds().has(c),
    ensures
        union_bounds::<T, N>(s).has(c),
    decreases s.len(),
{
    if i < s.len() - 1 {
        assert(s.drop_last()[i] == s[i]);
        lemma_union_bounds_has::<T, N>(s.drop_last(), i, c);
    }
}

pub open spec fn node_active_w<T: VoxelData, N: NodeTrait<T>>() -> spec_fn(N) -> nat {
    |n: N| n.spec_active_count()
}

pub open spec fn node_total_w<T: VoxelData, N: NodeTrait<T>>() -> spec_fn(N) -> nat {
    |n: N| n.spec_total_count()
}

/// The child count a listing adds up: active payloads, or all stored ones.
pub open spec fn pick_nw<T: VoxelData, N: NodeTrait<T>>(only_active: bool) -> spec_fn(N) -> nat {
    if only_active {
        node_active_w::<T, N>()
    } else {
        node_total_w::<T, N>()
    }
}

/// Root node: owns the children that hold data, keyed by the origin of the
/// root slot they cover. It is level 0 and never discarded.
pub struct RootNode<T, N> {
    level: u32,
    background_value: T,
    children: Vec<N>,
    keys: Vec<Vec3i>,
    slots: HashMap<u128, usize>,
}

impl<T: VoxelData, N: ChildNodeTrait<T>> RootNode<T, N> {
    /// Position in `children` of the child whose root slot holds `c`, if any.
    pub closed spec fn position(&self, c: Vec3i) -> Option<int> {
        let code = key_code(key_of(c, N::spec_cum()));
        if self.slots@.contains_key(code) {
            Some(self.slots@[code] as int)
        } else {
            None
        }
    }

    /// Coordinates whose stored payload is active.
    pub open spec fn active_cells(&self) -> Set<Vec3i> {
        Set::new(|c: Vec3i| active_weight(self.lookup(c)) == 1)
    }

    /// Coordinates that hold a stored payload.
    pub open spec fn stored_cells(&self) -> Set<Vec3i> {
        Set::new(|c: Vec3i| self.lookup(c) is Some)
    }

    pub closed spec fn spec_children(&self) -> Seq<N> {
        self.children@
    }

    /// What the root requires of child `i` and its key.
    closed spec fn entry_ok(&self, i: int) -> bool {
        let k = self.keys@[i];
        let ch = self.children@[i];
        &&& ch.wf()
        &&& ch.spec_bg() == self.background_value
        &&& key_of(k, N::spec_cum()) == k
        &&& block_fits(k, N::spec_cum())
        &&& forall|c: Vec3i| #[trigger] ch.in_region(c) == in_block(c, k, N::spec_cum())
        &&& self.slots@.contains_key(key_code(k))
        &&& self.slots@[key_code(k)] == i
    }

    /// The structure without the counting law.
    closed spec fn shape_wf(&self) -> bool {
        &&& N::shape_ok()
        &&& self.level == 0
        &&& !self.background_value.active()
        &&& self.keys@.len() == self.children@.len()
        &&& forall|i: int| 0 <= i < self.children@.len() ==> #[trigger] self.entry_ok(i)
        &&& forall|code: u128|
            #[trigger] self.slots@.contains_key(code) ==> self.slots@[code] < self.children@.len()
                && key_code(self.keys@[self.slots@[code] as int]) == code
    }

    /// With `c` in the root slot of child `i`, that child's region holds `c`.
    proof fn lemma_position(&self, c: Vec3i)
        requires
            self.shape_wf(),
        ensures
            self.position(c) matches Some(i) ==> 0 <= i < self.children@.len()
                && self.keys@[i] == key_of(c, N::spec_cum()) && self.children@[i].in_region(c)
                && self.entry_ok(i) && self.children@[i].wf()
                && self.children@[i].spec_bg() == self.background_value,
            self.position(c) is None ==> forall|i: int|
                0 <= i < self.children@.len() ==> self.keys@[i] != key_of(c, N::spec_cum()),
    {
        let k = key_of(c, N::spec_cum());
        let code = key_code(k);
        if self.slots@.contains_key(code) {
            let i = self.slots@[code] as int;
            assert(self.entry_ok(i));
            lemma_key_code_injective(self.keys@[i], k);
            self.children@[i].lemma_shape();
            lemma_snap_floor(c.x, N::spec_cum());
            lemma_snap_floor(c.y, N::spec_cum());
            lemma_snap_floor(c.z, N::spec_cum());
            assert(self.children@[i].in_region(c));
        } else {
            assert forall|i: int| 0 <= i < self.children@.len() implies self.keys@[i] != k by {
                assert(self.entry_ok(i));
            }
        }
    }

    /// The counters count exactly the stored (active) coordinates, and the
    /// background is inactive.
    pub proof fn lemma_counting_law(&self)
        requires
            self.wf(),
        ensures
            self.active_cells().finite(),
            self.active_cells().len() == self.spec_active_count(),
            self.stored_cells().finite(),
            self.stored_cells().len() == self.spec_total_count(),
            !self.spec_bg().active(),
            N::shape_ok(),
            N::spec_cum() <= MAX_LOG2_CUM,
            self.spec_log2_cum() == N::spec_cum(),
            forall|c: Vec3i| #[trigger] self.in_region(c),
            forall|c: Vec3i|
                #[trigger] self.accepts(c) == block_fits(key_of(c, N::spec_cum()), N::spec_cum()),
    {
        N::lemma_shape_ok();
    }

    /// Creates an empty root; refused when the payload's background is active.
    pub fn new() -> (r: Result<Self, VoxelError>)
        requires
            N::shape_ok(),
        ensures
            match r {
                Ok(root) => !T::spec_background().active() && root.wf() && root.spec_level() == 0
                    && root.spec_bounds() == Bounds3i::spec_empty()
                    && root.spec_bg() == T::spec_background() && root.spec_active_count() == 0
                    && root.spec_total_count() == 0 && root.spec_child_count() == 0
                    && forall|c: Vec3i| root.lookup(c) is None,
                Err(e) => T::spec_background().active() && e == VoxelError::InactiveBackgroundRequired,
            },
    {
        let background_value = T::background();
        if background_value.is_active() {
            return Err(VoxelError::InactiveBackgroundRequired);
        }
        let r = RootNode {
            level: 0,
            background_value,
            children: Vec::new(),
            keys: Vec::new(),
            slots: HashMap::new(),
        };
        proof {
            assert(r.active_cells() =~= Set::empty());
            assert(r.stored_cells() =~= Set::empty());
        }
        Ok(r)
    }

    /// Lower corner of the root slot that holds `coord`.
    pub fn calculate_child_key(&self, coord: Vec3i) -> (r: Vec3i)
        requires
            self.wf(),
        ensures
            r == key_of(coord, N::spec_cum()),
    {
        N::key(coord)
    }

    /// The child whose root slot holds `coord`, if one was created.
    pub fn find_child(&self, coord: Vec3i) -> (r: Option<&N>)
        requires
            self.wf(),
        ensures
            match r {
                Some(ch) => self.position(coord) matches Some(i) && self.spec_children()[i] == *ch,
                None => self.position(coord) is None,
            },
            r is None ==> !self.has_slot(coord),
            r matches Some(ch) ==> self.has_slot(coord) == ch.has_slot(coord),
    {
        let key = N::key(coord);
        match self.slots.get(&key_code_of(key)) {
            Some(i) => Some(&self.children[*i]),
            None => None,
        }
    }
}


impl<T: VoxelData, N: ChildNodeTrait<T>> RootNode<T, N> {
    /// A point of child `i`'s region is found through child `i`.
    proof fn lemma_region_position(&self, i: int, c: Vec3i)
        requires
            self.shape_wf(),
            0 <= i < self.children@.len(),
            self.children@[i].in_region(c),
        ensures
            self.position(c) == Some(i),
    {
        assert(self.entry_ok(i));
        let k = self.keys@[i];
        let l = N::spec_cum();
        self.children@[i].lemma_shape();
        crate::grid::lemma_snap_local(k.x, l);
        crate::grid::lemma_snap_local(k.y, l);
        crate::grid::lemma_snap_local(k.z, l);
        crate::grid::lemma_snap_in_block(c.x, k.x, l);
        crate::grid::lemma_snap_in_block(c.y, k.y, l);
        crate::grid::lemma_snap_in_block(c.z, k.z, l);
        assert(key_of(c, l) == k);
    }

    /// The counting law carries over a change of the stored payload at `c` alone.
    proof fn lemma_cells(old_root: Self, new_root: Self, c: Vec3i)
        requires
            old_root.active_cells().finite(),
            old_root.stored_cells().finite(),
            forall|c2: Vec3i| c2 != c ==> #[trigger] new_root.lookup(c2) == old_root.lookup(c2),
        ensures
            new_root.active_cells().finite(),
            new_root.stored_cells().finite(),
            new_root.active_cells().len() + active_weight(old_root.lookup(c))
                == old_root.active_cells().len() + active_weight(new_root.lookup(c)),
            new_root.stored_cells().len() + present_weight(old_root.lookup(c))
                == old_root.stored_cells().len() + present_weight(new_root.lookup(c)),
    {
        let a = old_root.active_cells();
        let s = old_root.stored_cells();
        if active_weight(new_root.lookup(c)) == 1 {
            assert(new_root.active_cells() =~= a.insert(c));
        } else {
            assert(new_root.active_cells() =~= a.remove(c));
        }
        if new_root.lookup(c) is Some {
            assert(new_root.stored_cells() =~= s.insert(c));
        } else {
            assert(new_root.stored_cells() =~= s.remove(c));
        }
    }

    /// Child `i` replaced by `new_ch`, which agrees with it away from `c`.
    proof fn lemma_replace_child(old_root: Self, new_root: Self, c: Vec3i, i: int, new_ch: N)
        requires
            old_root.wf(),
            old_root.position(c) == Some(i),
            new_root.children@ == old_root.children@.update(i, new_ch),
            new_root.keys@ == old_root.keys@,
            new_root.slots@ == old_root.slots@,
            new_root.level == old_root.level,
            new_root.background_value == old_root.background_value,
            new_ch.wf(),
            new_ch.spec_bg() == old_root.background_value,
            forall|c2: Vec3i| #[trigger] new_ch.in_region(c2) == old_root.children@[i].in_region(c2),
            forall|c2: Vec3i| c2 != c ==> #[trigger] new_ch.lookup(c2) == old_root.children@[i].lookup(c2),
            forall|c2: Vec3i| old_root.children@[i].has_slot(c2) ==> #[trigger] new_ch.has_slot(c2),
            new_ch.spec_active_count() + active_weight(old_root.lookup(c))
                == old_root.children@[i].spec_active_count() + active_weight(new_ch.lookup(c)),
            new_ch.spec_total_count() + present_weight(old_root.lookup(c))
                == old_root.children@[i].spec_total_count() + present_weight(new_ch.lookup(c)),
        ensures
            new_root.wf(),
            new_root.lookup(c) == new_ch.lookup(c),
            old_root.lookup(c) == old_root.children@[i].lookup(c),
            forall|c2: Vec3i| c2 != c ==> #[trigger] new_root.lookup(c2) == old_root.lookup(c2),
            new_root.has_slot(c) == new_ch.has_slot(c),
            old_root.has_slot(c) == old_root.children@[i].has_slot(c),
            forall|c2: Vec3i| old_root.has_slot(c2) ==> #[trigger] new_root.has_slot(c2),
            (forall|c2: Vec3i| #[trigger] new_ch.has_slot(c2) == old_root.children@[i].has_slot(c2))
                ==> forall|c2: Vec3i| #[trigger] new_root.has_slot(c2) == old_root.has_slot(c2),
            new_root.spec_active_count() + active_weight(old_root.lookup(c))
                == old_root.spec_active_count() + active_weight(new_root.lookup(c)),
            new_root.spec_total_count() + present_weight(old_root.lookup(c))
                == old_root.spec_total_count() + present_weight(new_root.lookup(c)),
    {
        old_root.lemma_position(c);
        lemma_tally_update(old_root.children@, i, new_ch, node_active_w());
        lemma_tally_update(old_root.children@, i, new_ch, node_total_w());
        assert forall|j: int| 0 <= j < new_root.children@.len() implies #[trigger] new_root.entry_ok(j) by {
            assert(old_root.entry_ok(j));
            assert(old_root.keys@[j] == new_root.keys@[j]);
        }
        assert(new_root.shape_wf());
        assert forall|c2: Vec3i| c2 != c implies #[trigger] new_root.lookup(c2) == old_root.lookup(
            c2,
        ) by {
            old_root.lemma_position(c2);
        }
        assert forall|c2: Vec3i| old_root.has_slot(c2) implies #[trigger] new_root.has_slot(c2) by {
            old_root.lemma_position(c2);
        }
        if forall|c2: Vec3i| #[trigger] new_ch.has_slot(c2) == old_root.children@[i].has_slot(c2) {
            assert forall|c2: Vec3i| #[trigger] new_root.has_slot(c2) == old_root.has_slot(c2) by {
                old_root.lemma_position(c2);
            }
        }
        Self::lemma_cells(old_root, new_root, c);
    }

    /// The stored payloads with their coordinates; only the active ones when
    /// `only_active` is set.
    fn collect(&self, only_active: bool) -> (r: Vec<(Vec3i, T)>)
        requires
            self.wf(),
        ensures
            forall|i: int|
                0 <= i < r@.len() ==> self.lookup(#[trigger] r@[i].0) == Some(r@[i].1) && (
                only_active ==> r@[i].1.active()),
            forall|c: Vec3i|
                #[trigger] self.lookup(c) is Some && (only_active ==> active_weight(self.lookup(c))
                    == 1) ==> exists|i: int| 0 <= i < r@.len() && r@[i].0 == c,
            r@.len() == tally(self.children@, pick_nw::<T, N>(only_active)),
            forall|i: int, j: int| 0 <= i < j < r@.len() ==> r@[i].0 != r@[j].0,
    {
        let mut out: Vec<(Vec3i, T)> = Vec::new();
        let mut index: usize = 0;
        while index < self.children.len()
            invariant
                self.wf(),
                index <= self.children@.len(),
                forall|i: int|
                    0 <= i < out@.len() ==> self.lookup(#[trigger] out@[i].0) == Some(out@[i].1) && (
                    only_active ==> out@[i].1.active()),
                forall|c: Vec3i|
                    (self.position(c) matches Some(p) && p < index) && #[trigger] self.lookup(c) is Some
                        && (only_active ==> active_weight(self.lookup(c)) == 1) ==> exists|i: int|
                        0 <= i < out@.len() && out@[i].0 == c,
                out@.len() == tally(self.children@.take(index as int), pick_nw::<T, N>(only_active)),
                forall|i: int|
                    0 <= i < out@.len() ==> (self.position((#[trigger] out@[i]).0) matches Some(p)
                        && p < index),
                forall|i: int, j: int| 0 <= i < j < out@.len() ==> out@[i].0 != out@[j].0,
            decreases self.children@.len() - index,
        {
            let ghost prev = out@;
            proof {
                lemma_tally_take(self.children@, index as int, pick_nw::<T, N>(only_active));
            }
            proof {
                assert(self.entry_ok(index as int));
            }
            let child = &self.children[index];
            let mut part = if only_active {
                child.active_voxels()
            } else {
                child.all_voxels()
            };
            let ghost part0 = part@;
            out.append(&mut part);
            proof {
                assert(out@ =~= prev + part0);
                assert forall|i: int| 0 <= i < out@.len() implies self.lookup(
                    #[trigger] out@[i].0,
                ) == Some(out@[i].1) && (only_active ==> out@[i].1.active()) by {
                    if i < prev.len() {
                        assert(out@[i] == prev[i]);
                    } else {
                        let c = out@[i].0;
                        assert(out@[i] == part0[i - prev.len()]);
                        child.lemma_lookup_in_bounds(c);
                        self.lemma_region_position(index as int, c);
                    }
                }
                assert forall|c: Vec3i|
                    (self.position(c) matches Some(p) && p < index + 1) && #[trigger] self.lookup(c) is Some
                        && (only_active ==> active_weight(self.lookup(c)) == 1) implies exists|i: int|
                    0 <= i < out@.len() && out@[i].0 == c by {
                    if self.position(c) == Some(index as int) {
                        let j = choose|j: int| 0 <= j < part0.len() && part0[j].0 == c;
                        assert(out@[prev.len() + j] == part0[j]);
                    } else {
                        let i0 = choose|i: int| 0 <= i < prev.len() && prev[i].0 == c;
                        assert(out@[i0] == prev[i0]);
                    }
                }
                assert forall|i: int|
                    0 <= i < out@.len() implies (self.position((#[trigger] out@[i]).0) matches Some(p)
                        && p < index + 1) by {
                    if i < prev.len() {
                        assert(out@[i] == prev[i]);
                    } else {
                        let c = out@[i].0;
                        assert(out@[i] == part0[i - prev.len()]);
                        child.lemma_lookup_in_bounds(c);
                        self.lemma_region_position(index as int, c);
                    }
                }
                assert forall|i: int, j: int| 0 <= i < j < out@.len() implies out@[i].0 != out@[j].0 by {
                    if j < prev.len() {
                        assert(out@[i] == prev[i]);
                        assert(out@[j] == prev[j]);
                    } else if i >= prev.len() {
                        assert(out@[i] == part0[i - prev.len()]);
                        assert(out@[j] == part0[j - prev.len()]);
                    } else {
                        assert(out@[i] == prev[i]);
                        let c = out@[j].0;
                        assert(out@[j] == part0[j - prev.len()]);
                        child.lemma_lookup_in_bounds(c);
                        self.lemma_region_position(index as int, c);
                    }
                }
            }
            index = index + 1;
        }
        proof {
            assert(self.children@.take(self.children@.len() as int) =~= self.children@);
        }
        proof {
            assert forall|c: Vec3i|
                #[trigger] self.lookup(c) is Some && (only_active ==> active_weight(self.lookup(c))
                    == 1) implies exists|i: int| 0 <= i < out@.len() && out@[i].0 == c by {
                self.lemma_position(c);
            }
        }
        out
    }
}

impl<T: VoxelData, N: ChildNodeTrait<T>> NodeTrait<T> for RootNode<T, N> {
    closed spec fn wf(&self) -> bool {
        &&& self.shape_wf()
        &&& self.active_cells().finite()
        &&& self.active_cells().len() == self.spec_active_count()
        &&& self.stored_cells().finite()
        &&& self.stored_cells().len() == self.spec_total_count()
    }

    closed spec fn lookup(&self, c: Vec3i) -> Option<T> {
        match self.position(c) {
            Some(i) => self.children@[i].lookup(c),
            None => None,
        }
    }

    open spec fn in_region(&self, c: Vec3i) -> bool {
        true
    }

    closed spec fn has_slot(&self, c: Vec3i) -> bool {
        self.position(c) matches Some(i) && self.children@[i].has_slot(c)
    }

    open spec fn accepts(&self, c: Vec3i) -> bool {
        block_fits(key_of(c, N::spec_cum()), N::spec_cum())
    }

    closed spec fn spec_bg(&self) -> T {
        self.background_value
    }

    closed spec fn spec_level(&self) -> u32 {
        self.level
    }

    closed spec fn spec_log2_cum(&self) -> nat {
        N::spec_cum()
    }

    open spec fn spec_bounds(&self) -> Bounds3i {
        union_bounds::<T, N>(self.spec_children())
    }

    closed spec fn spec_active_count(&self) -> nat {
        tally(self.children@, node_active_w())
    }

    closed spec fn spec_total_count(&self) -> nat {
        tally(self.children@, node_total_w())
    }

    open spec fn spec_child_count(&self) -> nat {
        self.spec_children().len()
    }

    proof fn lemma_lookup_in_bounds(&self, c: Vec3i) {
        self.lemma_position(c);
        if let Some(i) = self.position(c) {
            self.children@[i].lemma_lookup_in_bounds(c);
            assert(self.children@[i].lookup(c) is Some ==> self.children@[i].has_slot(c));
            if self.lookup(c) is Some {
                lemma_union_bounds_has::<T, N>(self.children@, i, c);
            }
        }
    }

    fn level(&self) -> (r: u32) {
        self.level
    }

    fn log2_cum(&self) -> (r: u32) {
        N::cum_log2()
    }

    fn bounds(&self) -> (r: Bounds3i) {
        let mut acc = Bounds3i::empty();
        let mut index: usize = 0;
        while index < self.children.len()
            invariant
                self.wf(),
                index <= self.children@.len(),
                acc == union_bounds::<T, N>(self.children@.take(index as int)),
            decreases self.children@.len() - index,
        {
            proof {
                assert(self.children@.take(index as int + 1).drop_last() =~= self.children@.take(
                    index as int,
                ));
                assert(self.entry_ok(index as int));
            }
            let b = self.children[index].bounds();
            acc = acc.expand_bounds(b);
            index = index + 1;
        }
        proof {
            assert(self.children@.take(self.children@.len() as int) =~= self.children@);
        }
        acc
    }

    fn is_active(&self, coord: Vec3i) -> (r: bool) {
        self.get_voxel(coord).is_active()
    }

    fn active_count(&self) -> (r: usize) {
        let mut count: usize = 0;
        let mut index: usize = 0;
        while index < self.children.len()
            invariant
                self.wf(),
                index <= self.children@.len(),
                count == tally(self.children@.take(index as int), node_active_w()),
                tally(self.children@, node_active_w()) <= usize::MAX,
            decreases self.children@.len() - index,
        {
            proof {
                lemma_tally_take(self.children@, index as int, node_active_w());
                lemma_tally_prefix_le(self.children@, index as int + 1, node_active_w());
                assert(self.entry_ok(index as int));
                self.children@[index as int].lemma_shape();
            }
            count = count + self.children[index].active_count();
            index = index + 1;
        }
        proof {
            assert(self.children@.take(self.children@.len() as int) =~= self.children@);
        }
        count
    }

    fn total_count(&self) -> (r: usize) {
        let mut count: usize = 0;
        let mut index: usize = 0;
        while index < self.children.len()
            invariant
                self.wf(),
                index <= self.children@.len(),
                count == tally(self.children@.take(index as int), node_total_w()),
                tally(self.children@, node_total_w()) <= usize::MAX,
            decreases self.children@.len() - index,
        {
            proof {
                lemma_tally_take(self.children@, index as int, node_total_w());
                lemma_tally_prefix_le(self.children@, index as int + 1, node_total_w());
                assert(self.entry_ok(index as int));
                self.children@[index as int].lemma_shape();
            }
            count = count + self.children[index].total_count();
            index = index + 1;
        }
        proof {
            assert(self.children@.take(self.children@.len() as int) =~= self.children@);
        }
        count
    }

    fn get_voxel(&self, coord: Vec3i) -> (r: &T) {
        proof {
            self.lemma_position(coord);
        }
        let key = N::key(coord);
        match self.slots.get(&key_code_of(key)) {
            Some(i) => self.children[*i].get_voxel(coord),
            None => &self.background_value,
        }
    }

    fn set_voxel(&mut self, coord: Vec3i, value: T) -> (r: Option<T>) {
        proof {
            self.lemma_position(coord);
        }
        let key = N::key(coord);
        let code = key_code_of(key);
        let found = match self.slots.get(&code) {
            Some(i) => Some(*i),
            None => None,
        };
        match found {
            Some(i) => {
                proof {
                    self.children@[i as int].lemma_shape();
                }
                let ghost old_child = self.children@[i as int];
                let previous = self.children[i].set_voxel(coord, value);
                proof {
                    let new_child = self.children@[i as int];
                    assert(self.children@ =~= old(self).children@.update(i as int, new_child));
                    Self::lemma_replace_child(*old(self), *self, coord, i as int, new_child);
                }
                previous
            },
            None => {
                if self.background_value.same_as(&value) {
                    None
                } else {
                    proof {
                        N::lemma_shape_ok();
                        lemma_snap_aligned(coord.x, N::spec_cum());
                        lemma_snap_aligned(coord.y, N::spec_cum());
                        lemma_snap_aligned(coord.z, N::spec_cum());
                    }
                    let mut child = N::create(key, self.level + 1, self.background_value.duplicate());
                    proof {
                        child.lemma_shape();
                        lemma_snap_floor(coord.x, N::spec_cum());
                        lemma_snap_floor(coord.y, N::spec_cum());
                        lemma_snap_floor(coord.z, N::spec_cum());
                        assert(child.in_region(coord));
                    }
                    let previous = child.set_voxel(coord, value);
                    let ghost new_child = child;
                    let pos = self.children.len();
                    self.children.push(child);
                    self.keys.push(key);
                    self.slots.insert(code, pos);
                    proof {
                        self.lemma_pushed_child(*old(self), coord, new_child);
                    }
                    previous
                }
            },
        }
    }

    fn remove_voxel(&mut self, coord: Vec3i) -> (r: Option<T>) {
        proof {
            self.lemma_position(coord);
        }
        let key = N::key(coord);
        let found = match self.slots.get(&key_code_of(key)) {
            Some(i) => Some(*i),
            None => None,
        };
        match found {
            Some(i) => {
                let previous = self.children[i].remove_voxel(coord);
                proof {
                    let new_child = self.children@[i as int];
                    assert(self.children@ =~= old(self).children@.update(i as int, new_child));
                    Self::lemma_replace_child(*old(self), *self, coord, i as int, new_child);
                    assert forall|c: Vec3i| #[trigger] self.children@[i as int].spec_bounds().has(c)
                        == old(self).children@[i as int].spec_bounds().has(c) by {}
                    lemma_union_bounds_update::<T, N>(old(self).children@, i as int, new_child);
                }
                previous
            },
            None => None,
        }
    }

    fn active_voxels(&self) -> (r: Vec<(Vec3i, T)>) {
        self.collect(true)
    }

    fn all_voxels(&self) -> (r: Vec<(Vec3i, T)>) {
        self.collect(false)
    }
}

/// Replacing an element by one with the same bounds keeps the union.
proof fn lemma_union_bounds_update<T: VoxelData, N: NodeTrait<T>>(s: Seq<N>, i: int, x: N)
    requires
        0 <= i < s.len(),
        x.spec_bounds() == s[i].spec_bounds(),
    ensures
        union_bounds::<T, N>(s.update(i, x)) == union_bounds::<T, N>(s),
    decreases s.len(),
{
    if i == s.len() - 1 {
        assert(s.update(i, x).drop_last() =~= s.drop_last());
    } else {
        lemma_union_bounds_update::<T, N>(s.drop_last(), i, x);
        assert(s.update(i, x).drop_last() =~= s.drop_last().update(i, x));
    }
}

impl<T: VoxelData, N: ChildNodeTrait<T>> RootNode<T, N> {
    /// The root after a new child for the root slot of `c` was appended.
    proof fn lemma_pushed_child(&self, old_root: Self, c: Vec3i, new_ch: N)
        requires
            old_root.wf(),
            old_root.position(c) is None,
            old_root.children@.len() <= usize::MAX,
            self.children@ == old_root.children@.push(new_ch),
            self.keys@ == old_root.keys@.push(key_of(c, N::spec_cum())),
            self.slots@ == old_root.slots@.insert(
                key_code(key_of(c, N::spec_cum())),
                old_root.children@.len() as usize,
            ),
            self.level == old_root.level,
            self.background_value == old_root.background_value,
            key_of(key_of(c, N::spec_cum()), N::spec_cum()) == key_of(c, N::spec_cum()),
            block_fits(key_of(c, N::spec_cum()), N::spec_cum()),
            new_ch.wf(),
            new_ch.spec_bg() == old_root.background_value,
            forall|c2: Vec3i| #[trigger] new_ch.in_region(c2) == in_block(c2, key_of(c, N::spec_cum()), N::spec_cum()),
            forall|c2: Vec3i| c2 != c ==> #[trigger] new_ch.lookup(c2) is None,
            new_ch.spec_active_count() == active_weight(new_ch.lookup(c)),
            new_ch.spec_total_count() == present_weight(new_ch.lookup(c)),
        ensures
            self.wf(),
            self.lookup(c) == new_ch.lookup(c),
            old_root.lookup(c) is None,
            forall|c2: Vec3i| c2 != c ==> #[trigger] self.lookup(c2) == old_root.lookup(c2),
            self.has_slot(c) == new_ch.has_slot(c),
            !old_root.has_slot(c),
            forall|c2: Vec3i| old_root.has_slot(c2) ==> #[trigger] self.has_slot(c2),
            self.spec_active_count() == old_root.spec_active_count() + active_weight(self.lookup(c)),
            self.spec_total_count() == old_root.spec_total_count() + present_weight(self.lookup(c)),
    {
        let k = key_of(c, N::spec_cum());
        let n = old_root.children@.len() as int;
        old_root.lemma_position(c);
        lemma_tally_push(old_root.children@, new_ch, node_active_w());
        lemma_tally_push(old_root.children@, new_ch, node_total_w());
        assert forall|j: int| 0 <= j < n implies key_code(#[trigger] old_root.keys@[j]) != key_code(k) by {
            assert(old_root.entry_ok(j));
            if key_code(old_root.keys@[j]) == key_code(k) {
                lemma_key_code_injective(old_root.keys@[j], k);
            }
        }
        assert forall|j: int| 0 <= j < self.children@.len() implies #[trigger] self.entry_ok(j) by {
            if j < n {
                assert(old_root.entry_ok(j));
                assert(self.keys@[j] == old_root.keys@[j]);
                assert(self.children@[j] == old_root.children@[j]);
                assert(key_code(old_root.keys@[j]) != key_code(k));
            } else {
                assert(self.keys@[j] == k);
                assert(self.children@[j] == new_ch);
            }
        }
        assert forall|code: u128| #[trigger] self.slots@.contains_key(code) implies self.slots@[code]
            < self.children@.len() && key_code(self.keys@[self.slots@[code] as int]) == code by {
            if code != key_code(k) {
                assert(old_root.slots@.contains_key(code));
                let m = old_root.slots@[code] as int;
                assert(self.keys@[m] == old_root.keys@[m]);
            } else {
                assert(self.keys@[n] == k);
            }
        }
        assert(self.shape_wf());
        assert(self.position(c) == Some(n));
        assert forall|c2: Vec3i| c2 != c implies #[trigger] self.lookup(c2) == old_root.lookup(c2) by {
            old_root.lemma_position(c2);
            if key_of(c2, N::spec_cum()) != k {
                if key_code(key_of(c2, N::spec_cum())) == key_code(k) {
                    lemma_key_code_injective(key_of(c2, N::spec_cum()), k);
                }
            }
        }
        assert forall|c2: Vec3i| old_root.has_slot(c2) implies #[trigger] self.has_slot(c2) by {
            old_root.lemma_position(c2);
            if key_code(key_of(c2, N::spec_cum())) == key_code(k) {
                lemma_key_code_injective(key_of(c2, N::spec_cum()), k);
            }
        }
        Self::lemma_cells(old_root, *self, c);
    }
}

impl<T: VoxelData, N: ChildNodeTrait<T>> NodeDiagnostics<T> for RootNode<T, N> {
    open spec fn spec_node_type(&self) -> NodeType {
        NodeType::Root
    }

    open spec fn spec_log2_child_size(&self) -> nat {
        N::spec_log2()
    }

    fn log2_child_size(&self) -> (r: u32) {
        N::log2()
    }

    fn node_type(&self) -> (r: NodeType) {
        NodeType::Root
    }

    fn depth(&self) -> (r: u32) {
        self.level
    }

    fn child_count(&self) -> (r: usize) {
        self.children.len()
    }
}

} // verus!
