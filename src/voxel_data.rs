//! The payload stored in each voxel, and its implementations for plain
//! integers, booleans and the small wrapper types.

use vstd::prelude::*;

mod bool_voxel;
mod int_voxel;

pub use bool_voxel::BoolVoxel;
pub use int_voxel::IntVoxel;

verus! {

/// A voxel payload: a value that is either active (counted and visited) or
/// not, with a canonical background value.
///
/// `background()` must not be active; a root node refuses a payload type whose
/// background is.
pub trait VoxelData: Sized {
    /// Whether this payload counts towards population and iteration.
    spec fn active(&self) -> bool;

    /// The canonical empty value.
    spec fn spec_background() -> Self;

    fn is_active(&self) -> (r: bool)
        ensures
            r == self.active(),
    ;

    fn background() -> (r: Self)
        ensures
            r == Self::spec_background(),
    ;

    /// A copy of this payload.
    fn duplicate(&self) -> (r: Self)
        ensures
            r == *self,
    ;

    /// Whether the two payloads are equal.
    fn same_as(&self, other: &Self) -> (r: bool)
        ensures
            r == (*self == *other),
    ;
}

impl VoxelData for i32 {
    open spec fn active(&self) -> bool {
        *self != 0
    }

    open spec fn spec_background() -> Self {
        0
    }

    fn is_active(&self) -> (r: bool) {
        *self != 0
    }

    fn background() -> (r: Self) {
        0
    }

    fn duplicate(&self) -> (r: Self) {
        *self
    }

    fn same_as(&self, other: &Self) -> (r: bool) {
        *self == *other
    }
}

impl VoxelData for u32 {
    open spec fn active(&self) -> bool {
        *self != 0
    }

    open spec fn spec_background() -> Self {
        0
    }

    fn is_active(&self) -> (r: bool) {
        *self != 0
    }

    fn background() -> (r: Self) {
        0
    }

    fn duplicate(&self) -> (r: Self) {
        *self
    }

    fn same_as(&self, other: &Self) -> (r: bool) {
        *self == *other
    }
}

impl VoxelData for bool {
    open spec fn active(&self) -> bool {
        *self
    }

    open spec fn spec_background() -> Self {
        false
    }

    fn is_active(&self) -> (r: bool) {
        *self
    }

    fn background() -> (r: Self) {
        false
    }

    fn duplicate(&self) -> (r: Self) {
        *self
    }

    fn same_as(&self, other: &Self) -> (r: bool) {
        *self == *other
    }
}

} // verus!
