//! Surface extraction: the triangle mesh, the marching-cubes data, and the
//! walk over a volume's active voxels.

pub mod mesh;
pub mod marching_cubes;
pub mod algorithm;
pub mod stl;

pub use mesh::{Mesh, Triangle};
pub use algorithm::MarchingCubesAlgorithm;
