//! The marching-cubes walk over a volume: which cubes carry a surface, how a
//! cube's corner pattern is numbered, and how its triangles enter the mesh.

use vstd::prelude::*;
use crate::math::Vec3i;
use crate::voxel_data::VoxelData;
use crate::voxel::{VoxelVolume, active_weight};
use crate::mesh_generation::mesh::{Mesh, Triangle};
use crate::mesh_generation::marching_cubes::{corner_offset, spec_corner_offset, triangle_row, spec_triangle_row};

verus! {

/// Errors of the surface extraction. The extraction is total on a
/// well-formed volume; the one kind is reserved and never produced.
#[derive(Debug, Clone, Copy, PartialEq, Eq, Structural)]
pub enum AlgorithmError {
    GenerationFailed,
}

/// Corner `i` of the unit cube whose low corner is `c`.
pub open spec fn cube_corner(c: Vec3i, i: int) -> Vec3i {
    let o = spec_corner_offset(i);
    Vec3i { x: (c.x + o.x) as i32, y: (c.y + o.y) as i32, z: (c.z + o.z) as i32 }
}

/// Whether all eight corners of the cube at `c` hold an active payload.
pub open spec fn cube_fully_active<T: VoxelData>(v: &VoxelVolume<T>, c: Vec3i) -> bool {
    forall|i: int| 0 <= i < 8 ==> active_weight(#[trigger] v.lookup(cube_corner(c, i))) == 1
}

/// The corner pattern: bit `i` set when corner `i` is below the iso level.
pub open spec fn cube_bits(below: Seq<bool>) -> int {
    (if below[0] { 1int } else { 0 }) + (if below[1] { 2int } else { 0 }) + (if below[2] {
        4int
    } else {
        0
    }) + (if below[3] { 8int } else { 0 }) + (if below[4] { 16int } else { 0 }) + (if below[5] {
        32int
    } else {
        0
    }) + (if below[6] { 64int } else { 0 }) + (if below[7] { 128int } else { 0 })
}

/// Whether row entry `x` names a cube edge.
pub open spec fn edge_ok(x: i8) -> bool {
    0 <= x < 12
}

/// Number of whole triangles in `row` from entry `t` on, up to the first
/// entry that names no edge (the terminating -1).
pub open spec fn triples_from(row: Seq<i8>, t: int) -> nat
    decreases 16 - t,
{
    if 0 <= t && t + 2 < 16 && t + 2 < row.len() && edge_ok(row[t]) && edge_ok(row[t + 1])
        && edge_ok(row[t + 2]) {
        1 + triples_from(row, t + 3)
    } else {
        0
    }
}

/// The surface extractor.
pub struct MarchingCubesAlgorithm {}

impl MarchingCubesAlgorithm {
    pub fn new() -> (r: Self) {
        MarchingCubesAlgorithm {  }
    }

    /// The offsets of the eight cube corners, in marching-cubes order.
    pub fn corner_offsets(&self) -> (r: [Vec3i; 8])
        ensures
            forall|i: int| 0 <= i < 8 ==> #[trigger] r@[i] == spec_corner_offset(i),
    {
        [
            corner_offset(0),
            corner_offset(1),
            corner_offset(2),
            corner_offset(3),
            corner_offset(4),
            corner_offset(5),
            corner_offset(6),
            corner_offset(7),
        ]
    }

    /// The corner pattern of a cube: bit `i` set when corner `i` lies below
    /// the iso level.
    pub fn calculate_cube_index(&self, below: &[bool; 8]) -> (r: u8)
        ensures
            r == cube_bits(below@),
    {
        let mut cube_index: u8 = 0;
        if below[0] {
            cube_index = cube_index + 1;
        }
        if below[1] {
            cube_index = cube_index + 2;
        }
        if below[2] {
            cube_index = cube_index + 4;
        }
        if below[3] {
            cube_index = cube_index + 8;
        }
        if below[4] {
            cube_index = cube_index + 16;
        }
        if below[5] {
            cube_index = cube_index + 32;
        }
        if below[6] {
            cube_index = cube_index + 64;
        }
        if below[7] {
            cube_index = cube_index + 128;
        }
        cube_index
    }

    /// The payload at corner `i` of the cube at `coord`, when it is active.
    fn active_corner<T: VoxelData>(&self, volume: &VoxelVolume<T>, coord: Vec3i, i: usize) -> (r:
        Option<T>)
        requires
            volume.wf(),
            i < 8,
            coord.x < i32::MAX && coord.y < i32::MAX && coord.z < i32::MAX,
        ensures
            r is Some == (active_weight(volume.lookup(cube_corner(coord, i as int))) == 1),
            r matches Some(v) ==> v == volume.read(cube_corner(coord, i as int)),
    {
        let corner = coord.plus(corner_offset(i));
        let value = volume.get_voxel(corner);
        if value.is_active() {
            proof {
                volume.lemma_volume_laws();
            }
            Some(value.duplicate())
        } else {
            proof {
                volume.lemma_volume_laws();
            }
            None
        }
    }

    /// The payloads at the eight corners of the cube whose low corner is
    /// `coord`, or `None` when any corner holds no active payload.
    pub fn get_cube_corner_values<T: VoxelData>(&self, volume: &VoxelVolume<T>, coord: Vec3i) -> (r:
        Option<[T; 8]>)
        requires
            volume.wf(),
            coord.x < i32::MAX && coord.y < i32::MAX && coord.z < i32::MAX,
        ensures
            r is Some == cube_fully_active(volume, coord),
            r matches Some(a) ==> forall|i: int|
                0 <= i < 8 ==> #[trigger] a@[i] == volume.read(cube_corner(coord, i)),
    {
        let v0 = match self.active_corner(volume, coord, 0) {
            Some(v) => v,
            None => return None,
        };
        let v1 = match self.active_corner(volume, coord, 1) {
            Some(v) => v,
            None => return None,
        };
        let v2 = match self.active_corner(volume, coord, 2) {
            Some(v) => v,
            None => return None,
        };
        let v3 = match self.active_corner(volume, coord, 3) {
            Some(v) => v,
            None => return None,
        };
        let v4 = match self.active_corner(volume, coord, 4) {
            Some(v) => v,
            None => return None,
        };
        let v5 = match self.active_corner(volume, coord, 5) {
            Some(v) => v,
            None => return None,
        };
        let v6 = match self.active_corner(volume, coord, 6) {
            Some(v) => v,
            None => return None,
        };
        let v7 = match self.active_corner(volume, coord, 7) {
            Some(v) => v,
            None => return None,
        };
        proof {
            assert forall|i: int| 0 <= i < 8 implies active_weight(
                #[trigger] volume.lookup(cube_corner(coord, i)),
            ) == 1 by {
                if i == 0 {
                } else if i == 1 {
                } else if i == 2 {
                } else if i == 3 {
                } else if i == 4 {
                } else if i == 5 {
                } else if i == 6 {
                } else {
                }
            }
        }
        Some([v0, v1, v2, v3, v4, v5, v6, v7])
    }

    /// Every active voxel whose unit cube has all eight corners active, with
    /// the payloads at those corners: the cubes the surface is looked for in.
    pub fn active_cubes<T: VoxelData>(&self, volume: &VoxelVolume<T>) -> (r: Vec<(Vec3i, [T; 8])>)
        requires
            volume.wf(),
        ensures
            forall|k: int|
                0 <= k < r@.len() ==> {
                    let (c, a) = #[trigger] r@[k];
                    &&& active_weight(volume.lookup(c)) == 1
                    &&& cube_fully_active(volume, c)
                    &&& forall|i: int| 0 <= i < 8 ==> #[trigger] a@[i] == volume.read(cube_corner(c, i))
                },
            forall|c: Vec3i|
                active_weight(#[trigger] volume.lookup(c)) == 1 && cube_fully_active(volume, c)
                    ==> exists|k: int| 0 <= k < r@.len() && r@[k].0 == c,
    {
        let voxels = volume.active_voxels();
        let mut cubes: Vec<(Vec3i, [T; 8])> = Vec::new();
        let mut k: usize = 0;
        while k < voxels.len()
            invariant
                volume.wf(),
                k <= voxels@.len(),
                forall|i: int|
                    0 <= i < voxels@.len() ==> #[trigger] volume.lookup(voxels@[i].0) == Some(
                        voxels@[i].1,
                    ) && voxels@[i].1.active() && volume.spec_bounds().has(voxels@[i].0),
                forall|c: Vec3i|
                    active_weight(#[trigger] volume.lookup(c)) == 1 ==> exists|i: int|
                        0 <= i < voxels@.len() && voxels@[i].0 == c,
                forall|j: int|
                    0 <= j < cubes@.len() ==> {
                        let (c, a) = #[trigger] cubes@[j];
                        &&& active_weight(volume.lookup(c)) == 1
                        &&& cube_fully_active(volume, c)
                        &&& forall|i: int|
                            0 <= i < 8 ==> #[trigger] a@[i] == volume.read(cube_corner(c, i))
                    },
                forall|i: int|
                    0 <= i < k && cube_fully_active(volume, #[trigger] voxels@[i].0) ==> exists|j: int|
                        0 <= j < cubes@.len() && cubes@[j].0 == voxels@[i].0,
            decreases voxels@.len() - k,
        {
            let coord = voxels[k].0;
            proof {
                assert(volume.lookup(voxels@[k as int].0) == Some(voxels@[k as int].1));
            }
            let ghost prev = cubes@;
            match self.get_cube_corner_values(volume, coord) {
                Some(corners) => {
                    cubes.push((coord, corners));
                    proof {
                        assert forall|j: int| 0 <= j < cubes@.len() implies {
                            let (c, a) = #[trigger] cubes@[j];
                            &&& active_weight(volume.lookup(c)) == 1
                            &&& cube_fully_active(volume, c)
                            &&& forall|i: int|
                                0 <= i < 8 ==> #[trigger] a@[i] == volume.read(cube_corner(c, i))
                        } by {
                            if j < prev.len() {
                                assert(cubes@[j] == prev[j]);
                            }
                        }
                        assert forall|i: int|
                            0 <= i < k + 1 && cube_fully_active(volume, #[trigger] voxels@[i].0)
                                implies exists|j: int| 0 <= j < cubes@.len() && cubes@[j].0 == voxels@[i].0 by {
                            if i < k {
                                let j0 = choose|j: int| 0 <= j < prev.len() && prev[j].0 == voxels@[i].0;
                                assert(cubes@[j0] == prev[j0]);
                            } else {
                                assert(cubes@[prev.len() as int].0 == voxels@[i].0);
                            }
                        }
                    }
                },
                None => {},
            }
            k = k + 1;
        }
        proof {
            assert forall|c: Vec3i|
                active_weight(#[trigger] volume.lookup(c)) == 1 && cube_fully_active(volume, c)
                    implies exists|j: int| 0 <= j < cubes@.len() && cubes@[j].0 == c by {
                let i = choose|i: int| 0 <= i < voxels@.len() && voxels@[i].0 == c;
                assert(cube_fully_active(volume, voxels@[i].0));
            }
        }
        cubes
    }

    /// Appends the triangles of `row` to `mesh`: for each whole triple of edge
    /// numbers, up to the terminating -1, three new vertices taken from
    /// `edge_vertices` and one triangle over them.
    pub fn emit_triangles<V: Copy>(&self, mesh: &mut Mesh<V>, row: &[i8; 16], edge_vertices: &[V; 12])
        requires
            old(mesh).wf(),
        ensures
            final(mesh).wf(),
            final(mesh).spec_vertices().len() == old(mesh).spec_vertices().len() + 3
                * triples_from(row@, 0),
            final(mesh).spec_triangles().len() == old(mesh).spec_triangles().len() + triples_from(
                row@,
                0,
            ),
            forall|i: int|
                0 <= i < old(mesh).spec_vertices().len() ==> #[trigger] final(mesh).spec_vertices()[i]
                    == old(mesh).spec_vertices()[i],
            forall|t: int|
                0 <= t < old(mesh).spec_triangles().len() ==> #[trigger] final(mesh).spec_triangles()[t] == old(mesh).spec_triangles()[t],
            forall|j: int|
                0 <= j < 3 * triples_from(row@, 0) ==> #[trigger] final(mesh).spec_vertices()[old(mesh).spec_vertices().len() + j] == edge_vertices@[row@[j] as int],
            forall|j: int|
                0 <= j < triples_from(row@, 0) ==> {
                    let tri = #[trigger] final(mesh).spec_triangles()[old(mesh).spec_triangles().len() + j];
                    let n0 = old(mesh).spec_vertices().len();
                    &&& tri.indices[0] == n0 + 3 * j
                    &&& tri.indices[1] == n0 + 3 * j + 1
                    &&& tri.indices[2] == n0 + 3 * j + 2
                },
    {
        let ghost n0 = mesh.spec_vertices().len();
        let ghost t0 = mesh.spec_triangles().len();
        let mut i: usize = 0;
        while i + 2 < 16 && 0 <= row[i] && row[i] < 12 && 0 <= row[i + 1] && row[i + 1] < 12 && 0
            <= row[i + 2] && row[i + 2] < 12
            invariant
                mesh.wf(),
                i % 3 == 0,
                i <= 15,
                triples_from(row@, 0) == i / 3 + triples_from(row@, i as int),
                mesh.spec_vertices().len() == n0 + i,
                mesh.spec_triangles().len() == t0 + i / 3,
                n0 == old(mesh).spec_vertices().len(),
                t0 == old(mesh).spec_triangles().len(),
                forall|v: int|
                    0 <= v < n0 ==> #[trigger] mesh.spec_vertices()[v] == old(mesh).spec_vertices()[v],
                forall|t: int|
                    0 <= t < t0 ==> #[trigger] mesh.spec_triangles()[t] == old(mesh).spec_triangles()[t],
                forall|j: int|
                    0 <= j < i ==> #[trigger] mesh.spec_vertices()[n0 + j] == edge_vertices@[row@[j] as int],
                forall|j: int|
                    0 <= j < i / 3 ==> {
                        let tri = #[trigger] mesh.spec_triangles()[t0 + j];
                        &&& tri.indices[0] == n0 + 3 * j
                        &&& tri.indices[1] == n0 + 3 * j + 1
                        &&& tri.indices[2] == n0 + 3 * j + 2
                    },
            decreases 16 - i,
        {
            let a = mesh.add_vertex(edge_vertices[row[i] as usize]);
            let b = mesh.add_vertex(edge_vertices[row[i + 1] as usize]);
            let c = mesh.add_vertex(edge_vertices[row[i + 2] as usize]);
            mesh.add_triangle(Triangle { indices: [a, b, c] });
            i = i + 3;
        }
        proof {
            assert(triples_from(row@, i as int) == 0);
        }
    }

    /// Appends the triangles of corner pattern `cube_index`, whose edge
    /// vertices are `edge_vertices`. The patterns 0 and 255 (all corners on
    /// one side) have no surface and change nothing.
    pub fn process_cube<V: Copy>(&self, mesh: &mut Mesh<V>, cube_index: u8, edge_vertices: &[V; 12])
        requires
            old(mesh).wf(),
        ensures
            final(mesh).wf(),
            cube_index == 0 || cube_index == 255 ==> final(mesh).spec_vertices() == old(mesh).spec_vertices() && final(mesh).spec_triangles() == old(mesh).spec_triangles(),
            final(mesh).spec_vertices().len() - old(mesh).spec_vertices().len() == 3 * (final(mesh).spec_triangles().len() - old(mesh).spec_triangles().len()),
            forall|i: int|
                0 <= i < old(mesh).spec_vertices().len() ==> #[trigger] final(mesh).spec_vertices()[i]
                    == old(mesh).spec_vertices()[i],
            forall|t: int|
                0 <= t < old(mesh).spec_triangles().len() ==> #[trigger] final(mesh).spec_triangles()[t] == old(mesh).spec_triangles()[t],
            forall|j: int|
                0 <= j < final(mesh).spec_triangles().len() - old(mesh).spec_triangles().len() ==> {
                    let tri = #[trigger] final(mesh).spec_triangles()[old(mesh).spec_triangles().len() + j];
                    let n0 = old(mesh).spec_vertices().len();
                    &&& tri.indices[0] == n0 + 3 * j
                    &&& tri.indices[1] == n0 + 3 * j + 1
                    &&& tri.indices[2] == n0 + 3 * j + 2
                },
            cube_index != 0 && cube_index != 255 ==> {
                let row = spec_triangle_row(cube_index)@;
                &&& final(mesh).spec_triangles().len() == old(mesh).spec_triangles().len()
                    + triples_from(row, 0)
                &&& final(mesh).spec_vertices().len() == old(mesh).spec_vertices().len() + 3
                    * triples_from(row, 0)
                &&& forall|j: int|
                    0 <= j < 3 * triples_from(row, 0) ==> #[trigger] final(mesh).spec_vertices()[old(mesh).spec_vertices().len() + j]
                        == edge_vertices@[row[j] as int]
            },
    {
        if cube_index == 0 || cube_index == 255 {
            return;
        }
        let row = triangle_row(cube_index);
        self.emit_triangles(mesh, &row, edge_vertices);
    }
}

} // verus!
