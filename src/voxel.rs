//! The tree levels (leaf, internal, root), the interface they share, and the
//! volume that owns one root of a chosen shape.

use vstd::prelude::*;
use crate::math::{Vec3i, Bounds3i};
use crate::voxel_data::VoxelData;
use crate::grid::{extent, key_of, block_fits, extent_of};
use crate::tally::{tally, lemma_tally_push};
use crate::voxel::leaf_node::present_w;
use crate::voxel::coord_iter::{box_len, box_nth, lemma_box_nth};

pub mod leaf_node;
pub mod internal_node;
pub mod root_node;
pub mod coord_iter;

pub use leaf_node::LeafNode;
pub use internal_node::InternalNode;
pub use root_node::RootNode;
pub use coord_iter::VoxelCoordIterator;

verus! {

/// `1` for a present, active payload, else `0`.
pub open spec fn active_weight<T: VoxelData>(o: Option<T>) -> nat {
    match o {
        Some(v) => if v.active() { 1nat } else { 0nat },
        None => 0nat,
    }
}

/// `1` for a present payload, else `0`.
pub open spec fn present_weight<T>(o: Option<T>) -> nat {
    match o {
        Some(_) => 1nat,
        None => 0nat,
    }
}

/// The interface every tree level offers to its parent and to the volume.
pub trait NodeTrait<T: VoxelData>: Sized {
    /// The node's internal invariant.
    spec fn wf(&self) -> bool;

    /// The payload stored for coordinate `c`, if any.
    spec fn lookup(&self, c: Vec3i) -> Option<T>;

    /// Whether `c` lies in the part of space this node stands for.
    spec fn in_region(&self, c: Vec3i) -> bool;

    /// Whether the storage for `c` already exists, down to the leaf slot.
    spec fn has_slot(&self, c: Vec3i) -> bool;

    /// Whether a write at `c` can be carried out (its block has `i32` corners).
    spec fn accepts(&self, c: Vec3i) -> bool;

    spec fn spec_bg(&self) -> T;

    spec fn spec_level(&self) -> u32;

    spec fn spec_log2_cum(&self) -> nat;

    spec fn spec_bounds(&self) -> Bounds3i;

    /// Number of stored, active payloads.
    spec fn spec_active_count(&self) -> nat;

    /// Number of stored payloads.
    spec fn spec_total_count(&self) -> nat;

    /// Number of direct children (for a leaf, of active voxels).
    spec fn spec_child_count(&self) -> nat;

    /// Stored payloads lie inside the node's region and bounds.
    proof fn lemma_lookup_in_bounds(&self, c: Vec3i)
        requires
            self.wf(),
        ensures
            self.lookup(c) is Some ==> self.in_region(c) && self.spec_bounds().has(c)
                && self.has_slot(c),
    ;

    /// Depth from the root; the root is level 0.
    fn level(&self) -> (r: u32)
        ensures
            r == self.spec_level(),
    ;

    /// Sum of the per-level log2 extents from this level down to the leaf.
    fn log2_cum(&self) -> (r: u32)
        requires
            self.wf(),
        ensures
            r == self.spec_log2_cum(),
    ;

    /// A box holding everything the node stores.
    fn bounds(&self) -> (r: Bounds3i)
        requires
            self.wf(),
        ensures
            r == self.spec_bounds(),
    ;

    /// Whether a payload is stored at `coord` and is active.
    fn is_active(&self, coord: Vec3i) -> (r: bool)
        requires
            self.wf(),
        ensures
            r == (active_weight(self.lookup(coord)) == 1),
    ;

    fn active_count(&self) -> (r: usize)
        requires
            self.wf(),
            self.spec_active_count() <= usize::MAX,
        ensures
            r == self.spec_active_count(),
    ;

    fn total_count(&self) -> (r: usize)
        requires
            self.wf(),
            self.spec_total_count() <= usize::MAX,
        ensures
            r == self.spec_total_count(),
    ;

    /// The payload stored at `coord`, or the background when none is.
    fn get_voxel(&self, coord: Vec3i) -> (r: &T)
        requires
            self.wf(),
        ensures
            *r == (match self.lookup(coord) {
                Some(v) => v,
                None => self.spec_bg(),
            }),
    ;

    /// Stores `value` at `coord` and returns the payload it displaced.
    ///
    /// Where no storage exists yet for `coord` and `value` is the background,
    /// nothing is created and nothing is stored.
    fn set_voxel(&mut self, coord: Vec3i, value: T) -> (r: Option<T>)
        requires
            old(self).wf(),
            old(self).accepts(coord),
        ensures
            final(self).wf(),
            r == old(self).lookup(coord),
            final(self).lookup(coord) == (if !old(self).in_region(coord) {
                None
            } else if old(self).has_slot(coord) || value != old(self).spec_bg() {
                Some(value)
            } else {
                None
            }),
            forall|c: Vec3i| c != coord ==> final(self).lookup(c) == old(self).lookup(c),
            final(self).spec_bg() == old(self).spec_bg(),
            final(self).spec_level() == old(self).spec_level(),
            final(self).spec_log2_cum() == old(self).spec_log2_cum(),
            forall|c: Vec3i| final(self).in_region(c) == old(self).in_region(c),
            forall|c: Vec3i| final(self).accepts(c) == old(self).accepts(c),
            forall|c: Vec3i| old(self).has_slot(c) ==> final(self).has_slot(c),
            final(self).has_slot(coord) == (old(self).has_slot(coord) || final(self).lookup(
                coord,
            ) is Some),
            final(self).spec_active_count() + active_weight(old(self).lookup(coord))
                == old(self).spec_active_count() + active_weight(final(self).lookup(coord)),
            final(self).spec_total_count() + present_weight(old(self).lookup(coord))
                == old(self).spec_total_count() + present_weight(final(self).lookup(coord)),
            !old(self).has_slot(coord) && value == old(self).spec_bg()
                ==> final(self).spec_child_count() == old(self).spec_child_count(),
    ;

    /// Deletes the payload at `coord` and returns it.
    fn remove_voxel(&mut self, coord: Vec3i) -> (r: Option<T>)
        requires
            old(self).wf(),
        ensures
            final(self).wf(),
            r == old(self).lookup(coord),
            final(self).lookup(coord) is None,
            forall|c: Vec3i| c != coord ==> final(self).lookup(c) == old(self).lookup(c),
            final(self).spec_bg() == old(self).spec_bg(),
            final(self).spec_level() == old(self).spec_level(),
            final(self).spec_log2_cum() == old(self).spec_log2_cum(),
            final(self).spec_bounds() == old(self).spec_bounds(),
            forall|c: Vec3i| final(self).in_region(c) == old(self).in_region(c),
            forall|c: Vec3i| final(self).accepts(c) == old(self).accepts(c),
            forall|c: Vec3i| final(self).has_slot(c) == old(self).has_slot(c),
            final(self).spec_active_count() + active_weight(old(self).lookup(coord))
                == old(self).spec_active_count(),
            final(self).spec_total_count() + present_weight(old(self).lookup(coord))
                == old(self).spec_total_count(),
    ;

    /// Every stored, active payload with its coordinate.
    fn active_voxels(&self) -> (r: Vec<(Vec3i, T)>)
        requires
            self.wf(),
        ensures
            forall|i: int|
                0 <= i < r@.len() ==> #[trigger] self.lookup(r@[i].0) == Some(r@[i].1)
                    && r@[i].1.active(),
            forall|c: Vec3i|
                active_weight(#[trigger] self.lookup(c)) == 1 ==> exists|i: int|
                    0 <= i < r@.len() && r@[i].0 == c,
            forall|i: int, j: int| 0 <= i < j < r@.len() ==> r@[i].0 != r@[j].0,
            r@.len() == self.spec_active_count(),
    ;

    /// Every stored payload with its coordinate.
    fn all_voxels(&self) -> (r: Vec<(Vec3i, T)>)
        requires
            self.wf(),
        ensures
            forall|i: int|
                0 <= i < r@.len() ==> #[trigger] self.lookup(r@[i].0) == Some(r@[i].1),
            forall|c: Vec3i|
                #[trigger] self.lookup(c) is Some ==> exists|i: int|
                    0 <= i < r@.len() && r@[i].0 == c,
            forall|i: int, j: int| 0 <= i < j < r@.len() ==> r@[i].0 != r@[j].0,
            r@.len() == self.spec_total_count(),
    ;
}

/// A tree level that can stand below another: its extent is fixed by its type.
pub trait ChildNodeTrait<T: VoxelData>: NodeTrait<T> {
    /// Whether the type's extents are within the supported range.
    spec fn shape_ok() -> bool;

    spec fn spec_log2() -> nat;

    spec fn spec_cum() -> nat;

    /// Lower corner of the node's block.
    spec fn spec_origin(&self) -> Vec3i;

    /// The type's extents are within range.
    proof fn lemma_shape_ok()
        requires
            Self::shape_ok(),
        ensures
            Self::spec_cum() <= crate::grid::MAX_LOG2_CUM,
    ;

    /// A well-formed node stands for (part of) the aligned block at its origin,
    /// and stores at most one payload per voxel of that block.
    proof fn lemma_shape(&self)
        requires
            self.wf(),
        ensures
            Self::shape_ok(),
            Self::spec_cum() <= crate::grid::MAX_LOG2_CUM,
            self.spec_log2_cum() == Self::spec_cum(),
            forall|c: Vec3i| #[trigger] self.in_region(c) ==> self.accepts(c),
            forall|c: Vec3i|
                #[trigger] self.in_region(c) ==> crate::grid::in_block(
                    c,
                    self.spec_origin(),
                    Self::spec_cum(),
                ),
            self.spec_active_count() <= self.spec_total_count(),
            self.spec_total_count() <= crate::grid::extent(Self::spec_cum()) * crate::grid::extent(
                Self::spec_cum(),
            ) * crate::grid::extent(Self::spec_cum()),
    ;

    /// Log2 of the number of slots per axis at this level.
    fn log2() -> (r: u32)
        requires
            Self::shape_ok(),
        ensures
            r == Self::spec_log2(),
    ;

    /// Log2 of the voxel extent per axis of one node of this type.
    fn cum_log2() -> (r: u32)
        requires
            Self::shape_ok(),
        ensures
            r == Self::spec_cum(),
            r <= crate::grid::MAX_LOG2_CUM,
    ;

    /// Lower corner of the block of this type that holds `coord`.
    fn key(coord: Vec3i) -> (r: Vec3i)
        requires
            Self::shape_ok(),
        ensures
            r == crate::grid::key_of(coord, Self::spec_cum()),
    ;

    /// An empty node for the aligned block at `key`.
    fn create(key: Vec3i, level: u32, background_value: T) -> (r: Self)
        requires
            Self::shape_ok(),
            crate::grid::key_of(key, Self::spec_cum()) == key,
            crate::grid::block_fits(key, Self::spec_cum()),
        ensures
            r.wf(),
            r.spec_origin() == key,
            r.spec_bg() == background_value,
            r.spec_level() == level,
            r.spec_active_count() == 0,
            r.spec_total_count() == 0,
            r.spec_log2_cum() == Self::spec_cum(),
            r.spec_bounds() == (Bounds3i {
                min: key,
                max: Vec3i {
                    x: (key.x + crate::grid::extent(Self::spec_cum())) as i32,
                    y: (key.y + crate::grid::extent(Self::spec_cum())) as i32,
                    z: (key.z + crate::grid::extent(Self::spec_cum())) as i32,
                },
            }),
            forall|c: Vec3i| r.lookup(c) is None,
            forall|c: Vec3i| r.in_region(c) == crate::grid::in_block(c, key, Self::spec_cum()),
    ;
}

/// Errors the tree can report.
#[derive(Debug, Clone, Copy, PartialEq, Eq, Structural)]
pub enum VoxelError {
    /// The payload type's background value is active.
    InactiveBackgroundRequired,
}

/// Which level of the tree a node is.
#[derive(Debug, Clone, Copy, PartialEq, Eq, Structural)]
pub enum NodeType {
    Root,
    Internal,
    Leaf,
}

/// Structural facts about a node, for inspection.
pub trait NodeDiagnostics<T: VoxelData>: NodeTrait<T> {
    /// Which level of the tree the node is.
    spec fn spec_node_type(&self) -> NodeType;

    /// Log2 of the number of slots per axis at the level below the node (for
    /// a leaf, of its own voxels per axis).
    spec fn spec_log2_child_size(&self) -> nat;

    fn log2_child_size(&self) -> (r: u32)
        requires
            self.wf(),
        ensures
            r == self.spec_log2_child_size(),
    ;

    fn node_type(&self) -> (r: NodeType)
        ensures
            r == self.spec_node_type(),
    ;

    fn depth(&self) -> (r: u32)
        ensures
            r == self.spec_level(),
    ;

    /// Number of direct children (for a leaf, of active voxels).
    fn child_count(&self) -> (r: usize)
        requires
            self.wf(),
        ensures
            r == self.spec_child_count(),
    ;
}

/// The tree shapes a volume can be built with (root first, leaf last).
#[derive(Debug, Clone, Copy, PartialEq, Eq, Structural)]
pub enum VolumeConfigType {
    /// Root over leaves of 4 voxels per axis.
    Default,
    /// Root over internal nodes of 32 slots per axis over leaves of 16 voxels per axis.
    Hashx5x4,
    /// Root over internal nodes of 4 slots per axis over leaves of 2 voxels per axis.
    Hashx2x1,
}

/// Compression tag, kept for configuration only: no backend is implemented,
/// and every volume is stored uncompressed.
#[derive(Debug, Clone, Copy, PartialEq, Eq, Structural)]
pub enum CompressionType {
    Uncompressed,
    LZ4,
    Zstd,
}

/// Cumulative log2 of one root slot for each shape.
pub open spec fn shape_log2_cum(t: VolumeConfigType) -> nat {
    match t {
        VolumeConfigType::Default => 2,
        VolumeConfigType::Hashx5x4 => 9,
        VolumeConfigType::Hashx2x1 => 3,
    }
}

enum VolumeRoot<T> {
    Default(RootNode<T, LeafNode<T, 2>>),
    Hashx5x4(RootNode<T, InternalNode<T, LeafNode<T, 4>, 5>>),
    Hashx2x1(RootNode<T, InternalNode<T, LeafNode<T, 1>, 2>>),
}

/// A sparse voxel volume: one root of the configured shape.
pub struct VoxelVolume<T> {
    root: VolumeRoot<T>,
    volume_config_type: VolumeConfigType,
    compression: CompressionType,
}

impl<T: VoxelData> VoxelVolume<T> {
    pub closed spec fn wf(&self) -> bool {
        match self.root {
            VolumeRoot::Default(r) => r.wf() && self.volume_config_type == VolumeConfigType::Default,
            VolumeRoot::Hashx5x4(r) => r.wf() && self.volume_config_type == VolumeConfigType::Hashx5x4,
            VolumeRoot::Hashx2x1(r) => r.wf() && self.volume_config_type == VolumeConfigType::Hashx2x1,
        }
    }

    /// The payload stored at `c`, if any.
    pub closed spec fn lookup(&self, c: Vec3i) -> Option<T> {
        match self.root {
            VolumeRoot::Default(r) => r.lookup(c),
            VolumeRoot::Hashx5x4(r) => r.lookup(c),
            VolumeRoot::Hashx2x1(r) => r.lookup(c),
        }
    }

    /// Whether the storage for `c` exists already.
    pub closed spec fn has_slot(&self, c: Vec3i) -> bool {
        match self.root {
            VolumeRoot::Default(r) => r.has_slot(c),
            VolumeRoot::Hashx5x4(r) => r.has_slot(c),
            VolumeRoot::Hashx2x1(r) => r.has_slot(c),
        }
    }

    pub closed spec fn spec_bg(&self) -> T {
        match self.root {
            VolumeRoot::Default(r) => r.spec_bg(),
            VolumeRoot::Hashx5x4(r) => r.spec_bg(),
            VolumeRoot::Hashx2x1(r) => r.spec_bg(),
        }
    }

    pub closed spec fn spec_config_type(&self) -> VolumeConfigType {
        self.volume_config_type
    }

    pub closed spec fn spec_compression(&self) -> CompressionType {
        self.compression
    }

    pub closed spec fn spec_bounds(&self) -> Bounds3i {
        match self.root {
            VolumeRoot::Default(r) => r.spec_bounds(),
            VolumeRoot::Hashx5x4(r) => r.spec_bounds(),
            VolumeRoot::Hashx2x1(r) => r.spec_bounds(),
        }
    }

    pub closed spec fn spec_active_count(&self) -> nat {
        match self.root {
            VolumeRoot::Default(r) => r.spec_active_count(),
            VolumeRoot::Hashx5x4(r) => r.spec_active_count(),
            VolumeRoot::Hashx2x1(r) => r.spec_active_count(),
        }
    }

    pub closed spec fn spec_total_count(&self) -> nat {
        match self.root {
            VolumeRoot::Default(r) => r.spec_total_count(),
            VolumeRoot::Hashx5x4(r) => r.spec_total_count(),
            VolumeRoot::Hashx2x1(r) => r.spec_total_count(),
        }
    }

    /// Number of root slots in use.
    pub closed spec fn spec_child_count(&self) -> nat {
        match self.root {
            VolumeRoot::Default(r) => r.spec_child_count(),
            VolumeRoot::Hashx5x4(r) => r.spec_child_count(),
            VolumeRoot::Hashx2x1(r) => r.spec_child_count(),
        }
    }

    /// Cumulative log2 of one root slot.
    pub open spec fn root_cum(&self) -> nat {
        shape_log2_cum(self.spec_config_type())
    }

    /// What a read at `c` returns: the stored payload, or the background.
    pub open spec fn read(&self, c: Vec3i) -> T {
        match self.lookup(c) {
            Some(v) => v,
            None => self.spec_bg(),
        }
    }

    /// Whether a write at `c` can be carried out: the root slot holding `c`
    /// has corners that fit in `i32`.
    pub open spec fn can_write(&self, c: Vec3i) -> bool {
        block_fits(key_of(c, self.root_cum()), self.root_cum())
    }

    /// Coordinates whose stored payload is active.
    pub open spec fn active_cells(&self) -> Set<Vec3i> {
        Set::new(|c: Vec3i| active_weight(self.lookup(c)) == 1)
    }

    /// Coordinates that hold a stored payload.
    pub open spec fn stored_cells(&self) -> Set<Vec3i> {
        Set::new(|c: Vec3i| self.lookup(c) is Some)
    }

    /// The counters count exactly the stored (active) coordinates, stored
    /// payloads lie in the bounds, and the background is inactive.
    pub proof fn lemma_volume_laws(&self)
        requires
            self.wf(),
        ensures
            self.active_cells().finite(),
            self.active_cells().len() == self.spec_active_count(),
            self.stored_cells().finite(),
            self.stored_cells().len() == self.spec_total_count(),
            !self.spec_bg().active(),
            forall|c: Vec3i| #[trigger] self.lookup(c) is Some ==> self.spec_bounds().has(c),
    {
        match self.root {
            VolumeRoot::Default(r) => {
                r.lemma_counting_law();
                assert(self.active_cells() =~= r.active_cells());
                assert(self.stored_cells() =~= r.stored_cells());
                assert forall|c: Vec3i| #[trigger] self.lookup(c) is Some implies self.spec_bounds().has(c) by {
                    r.lemma_lookup_in_bounds(c);
                }
            },
            VolumeRoot::Hashx5x4(r) => {
                r.lemma_counting_law();
                assert(self.active_cells() =~= r.active_cells());
                assert(self.stored_cells() =~= r.stored_cells());
                assert forall|c: Vec3i| #[trigger] self.lookup(c) is Some implies self.spec_bounds().has(c) by {
                    r.lemma_lookup_in_bounds(c);
                }
            },
            VolumeRoot::Hashx2x1(r) => {
                r.lemma_counting_law();
                assert(self.active_cells() =~= r.active_cells());
                assert(self.stored_cells() =~= r.stored_cells());
                assert forall|c: Vec3i| #[trigger] self.lookup(c) is Some implies self.spec_bounds().has(c) by {
                    r.lemma_lookup_in_bounds(c);
                }
            },
        }
    }

    proof fn lemma_root_accepts(&self, c: Vec3i)
        requires
            self.wf(),
        ensures
            match self.root {
                VolumeRoot::Default(r) => (r.accepts(c) == self.can_write(c)) && r.in_region(c)
                    && r.spec_log2_cum() == self.root_cum(),
                VolumeRoot::Hashx5x4(r) => (r.accepts(c) == self.can_write(c)) && r.in_region(c)
                    && r.spec_log2_cum() == self.root_cum(),
                VolumeRoot::Hashx2x1(r) => (r.accepts(c) == self.can_write(c)) && r.in_region(c)
                    && r.spec_log2_cum() == self.root_cum(),
            },
    {
        match self.root {
            VolumeRoot::Default(r) => r.lemma_counting_law(),
            VolumeRoot::Hashx5x4(r) => r.lemma_counting_law(),
            VolumeRoot::Hashx2x1(r) => r.lemma_counting_law(),
        }
    }

    /// Creates an empty volume of the given shape; refused when the payload's
    /// background is active.
    pub fn with_config(volume_config_type: VolumeConfigType, compression: CompressionType) -> (r:
        Result<Self, VoxelError>)
        ensures
            match r {
                Ok(v) => {
                    &&& !T::spec_background().active()
                    &&& v.wf()
                    &&& v.spec_config_type() == volume_config_type
                    &&& v.spec_compression() == compression
                    &&& v.spec_bg() == T::spec_background()
                    &&& v.spec_active_count() == 0
                    &&& v.spec_total_count() == 0
                    &&& v.spec_child_count() == 0
                    &&& v.spec_bounds() == Bounds3i::spec_empty()
                    &&& forall|c: Vec3i| v.lookup(c) is None
                },
                Err(e) => T::spec_background().active() && e == VoxelError::InactiveBackgroundRequired,
            },
    {
        let root = match volume_config_type {
            VolumeConfigType::Default => match RootNode::new() {
                Ok(r) => VolumeRoot::Default(r),
                Err(e) => {
                    return Err(e);
                },
            },
            VolumeConfigType::Hashx5x4 => match RootNode::new() {
                Ok(r) => VolumeRoot::Hashx5x4(r),
                Err(e) => {
                    return Err(e);
                },
            },
            VolumeConfigType::Hashx2x1 => match RootNode::new() {
                Ok(r) => VolumeRoot::Hashx2x1(r),
                Err(e) => {
                    return Err(e);
                },
            },
        };
        Ok(VoxelVolume { root, volume_config_type, compression })
    }

    /// The configured tree shape.
    pub fn volume_config_type(&self) -> (r: VolumeConfigType)
        ensures
            r == self.spec_config_type(),
    {
        self.volume_config_type
    }

    /// The configured compression tag.
    pub fn compression(&self) -> (r: CompressionType)
        ensures
            r == self.spec_compression(),
    {
        self.compression
    }

    /// Cumulative log2 of one root slot: voxels per axis of a root slot are `2^r`.
    pub fn root_log2_cum(&self) -> (r: u32)
        requires
            self.wf(),
        ensures
            r == self.root_cum(),
    {
        proof {
            self.lemma_root_accepts(Vec3i { x: 0, y: 0, z: 0 });
        }
        match &self.root {
            VolumeRoot::Default(r) => r.log2_cum(),
            VolumeRoot::Hashx5x4(r) => r.log2_cum(),
            VolumeRoot::Hashx2x1(r) => r.log2_cum(),
        }
    }

    /// Whether a write at `coord` can be carried out (see `can_write`).
    pub fn accepts(&self, coord: Vec3i) -> (r: bool)
        requires
            self.wf(),
        ensures
            r == self.can_write(coord),
    {
        let l = self.root_log2_cum();
        let key = crate::grid::key_at(coord, l);
        let e = extent_of(l);
        key.x <= i32::MAX - e && key.y <= i32::MAX - e && key.z <= i32::MAX - e
    }

    /// The payload at `coord`, or the background when none is stored.
    pub fn get_voxel(&self, coord: Vec3i) -> (r: &T)
        requires
            self.wf(),
        ensures
            *r == self.read(coord),
    {
        match &self.root {
            VolumeRoot::Default(r) => r.get_voxel(coord),
            VolumeRoot::Hashx5x4(r) => r.get_voxel(coord),
            VolumeRoot::Hashx2x1(r) => r.get_voxel(coord),
        }
    }

    /// Whether an active payload is stored at `coord`.
    pub fn is_active(&self, coord: Vec3i) -> (r: bool)
        requires
            self.wf(),
        ensures
            r == (active_weight(self.lookup(coord)) == 1),
    {
        match &self.root {
            VolumeRoot::Default(r) => r.is_active(coord),
            VolumeRoot::Hashx5x4(r) => r.is_active(coord),
            VolumeRoot::Hashx2x1(r) => r.is_active(coord),
        }
    }

    /// Stores `value` at `coord` and returns the payload it displaced. A
    /// later read of `coord` gives `value`; no other coordinate changes.
    /// Writing the background where nothing is stored yet creates no node.
    pub fn set_voxel(&mut self, coord: Vec3i, value: T) -> (r: Option<T>)
        requires
            old(self).wf(),
            old(self).can_write(coord),
        ensures
            final(self).wf(),
            r == old(self).lookup(coord),
            final(self).read(coord) == value,
            final(self).lookup(coord) == (if old(self).has_slot(coord) || value != old(self).spec_bg() {
                Some(value)
            } else {
                None
            }),
            forall|c: Vec3i| c != coord ==> #[trigger] final(self).lookup(c) == old(self).lookup(c),
            final(self).spec_bg() == old(self).spec_bg(),
            final(self).spec_config_type() == old(self).spec_config_type(),
            final(self).spec_compression() == old(self).spec_compression(),
            final(self).spec_active_count() + active_weight(old(self).lookup(coord))
                == old(self).spec_active_count() + active_weight(final(self).lookup(coord)),
            final(self).spec_total_count() + present_weight(old(self).lookup(coord))
                == old(self).spec_total_count() + present_weight(final(self).lookup(coord)),
            !old(self).has_slot(coord) && value == old(self).spec_bg()
                ==> final(self).spec_child_count() == old(self).spec_child_count(),
    {
        proof {
            self.lemma_root_accepts(coord);
        }
        match &mut self.root {
            VolumeRoot::Default(r) => r.set_voxel(coord, value),
            VolumeRoot::Hashx5x4(r) => r.set_voxel(coord, value),
            VolumeRoot::Hashx2x1(r) => r.set_voxel(coord, value),
        }
    }

    /// Deletes the payload at `coord` and returns it; a later read of `coord`
    /// gives the background.
    pub fn remove_voxel(&mut self, coord: Vec3i) -> (r: Option<T>)
        requires
            old(self).wf(),
        ensures
            final(self).wf(),
            r == old(self).lookup(coord),
            final(self).lookup(coord) is None,
            final(self).read(coord) == old(self).spec_bg(),
            forall|c: Vec3i| c != coord ==> #[trigger] final(self).lookup(c) == old(self).lookup(c),
            final(self).spec_bg() == old(self).spec_bg(),
            final(self).spec_config_type() == old(self).spec_config_type(),
            final(self).spec_compression() == old(self).spec_compression(),
            final(self).spec_bounds() == old(self).spec_bounds(),
            final(self).spec_active_count() + active_weight(old(self).lookup(coord))
                == old(self).spec_active_count(),
            final(self).spec_total_count() + present_weight(old(self).lookup(coord))
                == old(self).spec_total_count(),
    {
        match &mut self.root {
            VolumeRoot::Default(r) => r.remove_voxel(coord),
            VolumeRoot::Hashx5x4(r) => r.remove_voxel(coord),
            VolumeRoot::Hashx2x1(r) => r.remove_voxel(coord),
        }
    }

    /// Number of coordinates holding an active payload.
    pub fn active_count(&self) -> (r: usize)
        requires
            self.wf(),
            self.spec_active_count() <= usize::MAX,
        ensures
            r == self.spec_active_count(),
            r == self.active_cells().len(),
    {
        proof {
            self.lemma_volume_laws();
        }
        match &self.root {
            VolumeRoot::Default(r) => r.active_count(),
            VolumeRoot::Hashx5x4(r) => r.active_count(),
            VolumeRoot::Hashx2x1(r) => r.active_count(),
        }
    }

    /// Number of coordinates holding a payload.
    pub fn total_count(&self) -> (r: usize)
        requires
            self.wf(),
            self.spec_total_count() <= usize::MAX,
        ensures
            r == self.spec_total_count(),
            r == self.stored_cells().len(),
    {
        proof {
            self.lemma_volume_laws();
        }
        match &self.root {
            VolumeRoot::Default(r) => r.total_count(),
            VolumeRoot::Hashx5x4(r) => r.total_count(),
            VolumeRoot::Hashx2x1(r) => r.total_count(),
        }
    }

    /// Number of root slots in use.
    pub fn child_count(&self) -> (r: usize)
        requires
            self.wf(),
        ensures
            r == self.spec_child_count(),
    {
        match &self.root {
            VolumeRoot::Default(r) => r.child_count(),
            VolumeRoot::Hashx5x4(r) => r.child_count(),
            VolumeRoot::Hashx2x1(r) => r.child_count(),
        }
    }

    /// A box holding every stored payload (the union of the root slots in
    /// use); the empty box when none is.
    pub fn bounds(&self) -> (r: Bounds3i)
        requires
            self.wf(),
        ensures
            r == self.spec_bounds(),
            forall|c: Vec3i| #[trigger] self.lookup(c) is Some ==> r.has(c),
            self.spec_child_count() == 0 ==> r == Bounds3i::spec_empty(),
    {
        proof {
            self.lemma_volume_laws();
        }
        match &self.root {
            VolumeRoot::Default(r) => r.bounds(),
            VolumeRoot::Hashx5x4(r) => r.bounds(),
            VolumeRoot::Hashx2x1(r) => r.bounds(),
        }
    }

    /// Every active payload with its coordinate; every such coordinate lies
    /// in `bounds()`.
    pub fn active_voxels(&self) -> (r: Vec<(Vec3i, T)>)
        requires
            self.wf(),
        ensures
            forall|i: int|
                0 <= i < r@.len() ==> #[trigger] self.lookup(r@[i].0) == Some(r@[i].1)
                    && r@[i].1.active() && self.spec_bounds().has(r@[i].0),
            forall|c: Vec3i|
                active_weight(#[trigger] self.lookup(c)) == 1 ==> exists|i: int|
                    0 <= i < r@.len() && r@[i].0 == c,
            forall|i: int, j: int| 0 <= i < j < r@.len() ==> r@[i].0 != r@[j].0,
            r@.len() == self.spec_active_count(),
            r@.len() == self.active_cells().len(),
    {
        proof {
            self.lemma_volume_laws();
        }
        match &self.root {
            VolumeRoot::Default(r) => r.active_voxels(),
            VolumeRoot::Hashx5x4(r) => r.active_voxels(),
            VolumeRoot::Hashx2x1(r) => r.active_voxels(),
        }
    }

    /// Every stored payload with its coordinate.
    pub fn all_voxels(&self) -> (r: Vec<(Vec3i, T)>)
        requires
            self.wf(),
        ensures
            forall|i: int|
                0 <= i < r@.len() ==> #[trigger] self.lookup(r@[i].0) == Some(r@[i].1),
            forall|c: Vec3i|
                #[trigger] self.lookup(c) is Some ==> exists|i: int|
                    0 <= i < r@.len() && r@[i].0 == c,
            forall|i: int, j: int| 0 <= i < j < r@.len() ==> r@[i].0 != r@[j].0,
            r@.len() == self.spec_total_count(),
            r@.len() == self.stored_cells().len(),
    {
        proof {
            self.lemma_volume_laws();
        }
        match &self.root {
            VolumeRoot::Default(r) => r.all_voxels(),
            VolumeRoot::Hashx5x4(r) => r.all_voxels(),
            VolumeRoot::Hashx2x1(r) => r.all_voxels(),
        }
    }

    /// Runs `generator` on every coordinate of the box `[min, max)`, x
    /// fastest, then y, then z, and stores each payload it returns; returns
    /// how many it returned.
    ///
    /// There is one generator outcome per coordinate, in that order: a
    /// coordinate whose outcome is a payload reads as that payload afterwards;
    /// one whose outcome is `None` keeps what it held. Nothing outside the
    /// box changes.
    pub fn fill_voxel_bounds<F: Fn(Vec3i) -> Option<T>>(
        &mut self,
        min: Vec3i,
        max: Vec3i,
        generator: F,
    ) -> (r: usize)
        requires
            old(self).wf(),
            box_len(min, max) <= usize::MAX,
            forall|c: Vec3i| (Bounds3i { min, max }).has(c) ==> #[trigger] generator.requires((c,)),
            forall|c: Vec3i| (Bounds3i { min, max }).has(c) ==> #[trigger] old(self).can_write(c),
        ensures
            final(self).wf(),
            final(self).spec_bg() == old(self).spec_bg(),
            final(self).spec_config_type() == old(self).spec_config_type(),
            final(self).spec_compression() == old(self).spec_compression(),
            forall|c: Vec3i|
                !(Bounds3i { min, max }).has(c) ==> #[trigger] final(self).lookup(c) == old(self).lookup(c),
            exists|outcomes: Seq<Option<T>>|
                {
                    &&& outcomes.len() == box_len(min, max)
                    &&& r == tally(outcomes, present_w())
                    &&& forall|n: int|
                        0 <= n < outcomes.len() ==> generator.ensures(
                            (box_nth(min, max, n),),
                            #[trigger] outcomes[n],
                        )
                    &&& forall|n: int|
                        0 <= n < outcomes.len() ==> match #[trigger] outcomes[n] {
                            Some(v) => final(self).read(box_nth(min, max, n)) == v,
                            None => final(self).lookup(box_nth(min, max, n)) == old(self).lookup(
                                box_nth(min, max, n),
                            ),
                        }
                },
    {
        let mut count: usize = 0;
        let mut coords = VoxelCoordIterator::new(min, max);
        let ghost mut outcomes: Seq<Option<T>> = Seq::empty();
        loop
            invariant
                self.wf(),
                coords.wf(),
                coords.spec_min() == min,
                coords.spec_max() == max,
                box_len(min, max) <= usize::MAX,
                forall|c: Vec3i| (Bounds3i { min, max }).has(c) ==> #[trigger] generator.requires((c,)),
                forall|c: Vec3i| (Bounds3i { min, max }).has(c) ==> #[trigger] old(self).can_write(c),
                self.spec_bg() == old(self).spec_bg(),
                self.spec_config_type() == old(self).spec_config_type(),
                self.spec_compression() == old(self).spec_compression(),
                0 <= coords.pos() <= box_len(min, max),
                outcomes.len() == coords.pos(),
                count == tally(outcomes, present_w()),
                count <= coords.pos(),
                forall|c: Vec3i|
                    !(exists|n: int| 0 <= n < coords.pos() && box_nth(min, max, n) == c)
                        ==> #[trigger] self.lookup(c) == old(self).lookup(c),
                forall|n: int|
                    0 <= n < outcomes.len() ==> generator.ensures(
                        (box_nth(min, max, n),),
                        #[trigger] outcomes[n],
                    ),
                forall|n: int|
                    0 <= n < outcomes.len() ==> match #[trigger] outcomes[n] {
                        Some(v) => self.read(box_nth(min, max, n)) == v,
                        None => self.lookup(box_nth(min, max, n)) == old(self).lookup(
                            box_nth(min, max, n),
                        ),
                    },
            ensures
                self.wf(),
                self.spec_bg() == old(self).spec_bg(),
                self.spec_config_type() == old(self).spec_config_type(),
                self.spec_compression() == old(self).spec_compression(),
                outcomes.len() == box_len(min, max),
                count == tally(outcomes, present_w()),
                forall|c: Vec3i|
                    !(Bounds3i { min, max }).has(c) ==> #[trigger] self.lookup(c) == old(self).lookup(c),
                forall|n: int|
                    0 <= n < outcomes.len() ==> generator.ensures(
                        (box_nth(min, max, n),),
                        #[trigger] outcomes[n],
                    ),
                forall|n: int|
                    0 <= n < outcomes.len() ==> match #[trigger] outcomes[n] {
                        Some(v) => self.read(box_nth(min, max, n)) == v,
                        None => self.lookup(box_nth(min, max, n)) == old(self).lookup(
                            box_nth(min, max, n),
                        ),
                    },
            decreases box_len(min, max) - coords.pos(),
        {
            let ghost pos = coords.pos();
            let next = coords.next();
            match next {
                None => {
                    proof {
                        assert forall|c: Vec3i| !(Bounds3i { min, max }).has(c) implies #[trigger] self.lookup(
                            c,
                        ) == old(self).lookup(c) by {
                            assert forall|n: int| 0 <= n < coords.pos() implies box_nth(min, max, n)
                                != c by {
                                lemma_box_nth(min, max, n);
                            }
                        }
                    }
                    break;
                },
                Some(coord) => {
                    proof {
                        lemma_box_nth(min, max, pos);
                        assert((Bounds3i { min, max }).has(coord));
                        assert(old(self).can_write(coord));
                    }
                    let ghost before = *self;
                    let outcome = generator(coord);
                    let ghost o = outcome;
                    match outcome {
                        Some(value) => {
                            self.set_voxel(coord, value);
                            count = count + 1;
                        },
                        None => {},
                    }
                    proof {
                        lemma_tally_push(outcomes, o, present_w());
                        outcomes = outcomes.push(o);
                        assert forall|n: int| 0 <= n < outcomes.len() implies generator.ensures(
                            (box_nth(min, max, n),),
                            #[trigger] outcomes[n],
                        ) by {}
                        assert forall|n: int| 0 <= n < outcomes.len() implies match #[trigger] outcomes[n] {
                            Some(v) => self.read(box_nth(min, max, n)) == v,
                            None => self.lookup(box_nth(min, max, n)) == old(self).lookup(
                                box_nth(min, max, n),
                            ),
                        } by {
                            if n < pos {
                                assert(outcomes[n] == outcomes.drop_last()[n]);
                                lemma_box_nth(min, max, n);
                            }
                        }
                        assert forall|c: Vec3i|
                            !(exists|n: int| 0 <= n < coords.pos() && box_nth(min, max, n) == c)
                                implies #[trigger] self.lookup(c) == old(self).lookup(c) by {
                            assert(c != coord);
                            assert(!(exists|n: int| 0 <= n < pos && box_nth(min, max, n) == c));
                        }
                    }
                },
            }
        }
        proof {
            assert(outcomes.len() == box_len(min, max) && count == tally(outcomes, present_w()));
        }
        count
    }
}

/// A write or a removal at one coordinate of a volume.
pub enum VoxelOp<T> {
    Write(Vec3i, T),
    Remove(Vec3i),
}

/// What `set_voxel` and `remove_voxel` promise about the volume after one
/// operation, relative to the volume before it.
pub open spec fn step_ok<T: VoxelData>(
    before: VoxelVolume<T>,
    op: VoxelOp<T>,
    after: VoxelVolume<T>,
) -> bool {
    &&& after.wf()
    &&& after.spec_bg() == before.spec_bg()
    &&& match op {
        VoxelOp::Write(c, v) => {
            &&& after.read(c) == v
            &&& after.lookup(c) is Some || v == before.spec_bg()
            &&& forall|c2: Vec3i| c2 != c ==> #[trigger] after.lookup(c2) == before.lookup(c2)
        },
        VoxelOp::Remove(c) => {
            &&& after.lookup(c) is None
            &&& forall|c2: Vec3i| c2 != c ==> #[trigger] after.lookup(c2) == before.lookup(c2)
        },
    }
}

/// The value last written to `c` by `ops`: the payload of the last write, or
/// `bg` when there was none or the last operation at `c` was a removal.
pub open spec fn last_written<T>(ops: Seq<VoxelOp<T>>, c: Vec3i, bg: T) -> T
    decreases ops.len(),
{
    if ops.len() == 0 {
        bg
    } else {
        match ops.last() {
            VoxelOp::Write(c2, v) => if c2 == c {
                v
            } else {
                last_written(ops.drop_last(), c, bg)
            },
            VoxelOp::Remove(c2) => if c2 == c {
                bg
            } else {
                last_written(ops.drop_last(), c, bg)
            },
        }
    }
}

/// Reading a coordinate after any sequence of writes and removals, starting
/// from an empty volume, gives the value last written there, or the
/// background when nothing was written or the last operation removed it.
pub proof fn law_read_after_writes<T: VoxelData>(
    states: Seq<VoxelVolume<T>>,
    ops: Seq<VoxelOp<T>>,
    c: Vec3i,
)
    requires
        states.len() == ops.len() + 1,
        forall|c2: Vec3i| #[trigger] states[0].lookup(c2) is None,
        forall|i: int| 0 <= i < ops.len() ==> step_ok(states[i], #[trigger] ops[i], states[i + 1]),
    ensures
        states.last().read(c) == last_written(ops, c, states[0].spec_bg()),
        states.last().spec_bg() == states[0].spec_bg(),
        (states.last().lookup(c) is Some) ==> states.last().lookup(c) == Some(
            last_written(ops, c, states[0].spec_bg()),
        ),
    decreases ops.len(),
{
    let n = ops.len() as int;
    if n > 0 {
        let prev_states = states.drop_last();
        let prev_ops = ops.drop_last();
        assert forall|i: int| 0 <= i < prev_ops.len() implies step_ok(
            prev_states[i],
            #[trigger] prev_ops[i],
            prev_states[i + 1],
        ) by {
            assert(prev_ops[i] == ops[i]);
            assert(step_ok(states[i], ops[i], states[i + 1]));
        }
        law_read_after_writes(prev_states, prev_ops, c);
        assert(step_ok(states[n - 1], ops[n - 1], states[n]));
        assert(prev_states.last() == states[n - 1]);
    }
}

/// The active coordinates after any sequence of writes and removals,
/// starting from an empty volume whose background is inactive, are those
/// whose last written value is active; `active_count` counts exactly these.
pub proof fn law_population<T: VoxelData>(states: Seq<VoxelVolume<T>>, ops: Seq<VoxelOp<T>>)
    requires
        states.len() == ops.len() + 1,
        states[0].wf(),
        forall|c2: Vec3i| #[trigger] states[0].lookup(c2) is None,
        forall|i: int| 0 <= i < ops.len() ==> step_ok(states[i], #[trigger] ops[i], states[i + 1]),
    ensures
        states.last().active_cells() == Set::new(
            |c: Vec3i| last_written(ops, c, states[0].spec_bg()).active(),
        ),
        states.last().active_cells().finite(),
        states.last().active_cells().len() == states.last().spec_active_count(),
{
    states[0].lemma_volume_laws();
    let last = states.last();
    if ops.len() > 0 {
        assert(step_ok(states[ops.len() - 1], ops[ops.len() - 1], states[ops.len() as int]));
    }
    assert(last.wf());
    last.lemma_volume_laws();
    assert forall|c: Vec3i|
        #[trigger] last.active_cells().contains(c) == last_written(ops, c, states[0].spec_bg()).active() by {
        law_read_after_writes(states, ops, c);
    }
    assert(last.active_cells() =~= Set::new(
        |c: Vec3i| last_written(ops, c, states[0].spec_bg()).active(),
    ));
}

} // verus!
