use vstd::prelude::*;
use crate::voxel_data::VoxelData;

verus! {

/// An integer sample; zero is empty.
#[derive(Debug, Clone, Copy, PartialEq, Eq, Structural)]
pub struct IntVoxel(pub i32);

impl VoxelData for IntVoxel {
    open spec fn active(&self) -> bool {
        self.0 != 0
    }

    open spec fn spec_background() -> Self {
        IntVoxel(0)
    }

    fn is_active(&self) -> (r: bool) {
        self.0 != 0
    }

    fn background() -> (r: Self) {
        IntVoxel(0)
    }

    fn duplicate(&self) -> (r: Self) {
        IntVoxel(self.0)
    }

    fn same_as(&self, other: &Self) -> (r: bool) {
        self.0 == other.0
    }
}

impl Default for IntVoxel {
    fn default() -> (r: Self)
        ensures
            r == IntVoxel(0),
    {
        IntVoxel(0)
    }
}

} // verus!
