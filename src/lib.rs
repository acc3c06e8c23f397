//! Sparse hierarchical voxel storage: a fixed-depth tree of dense blocks in
//! which only regions holding non-background data occupy memory.

pub mod math;
pub mod grid;
pub mod tally;
pub mod voxel_data;
pub mod voxel;
pub mod mesh_generation;
