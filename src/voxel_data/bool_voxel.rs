use vstd::prelude::*;
use crate::voxel_data::VoxelData;

verus! {

/// Occupied or empty.
#[derive(Debug, Clone, Copy, PartialEq, Eq, Structural)]
pub struct BoolVoxel(pub bool);

impl VoxelData for BoolVoxel {
    open spec fn active(&self) -> bool {
        self.0
    }

    open spec fn spec_background() -> Self {
        BoolVoxel(false)
    }

    fn is_active(&self) -> (r: bool) {
        self.0
    }

    fn background() -> (r: Self) {
        BoolVoxel(false)
    }

    fn duplicate(&self) -> (r: Self) {
        BoolVoxel(self.0)
    }

    fn same_as(&self, other: &Self) -> (r: bool) {
        self.0 == other.0
    }
}

impl Default for BoolVoxel {
    fn default() -> (r: Self)
        ensures
            r == BoolVoxel(false),
    {
        BoolVoxel(false)
    }
}

} // verus!
