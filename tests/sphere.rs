use yanvox::math::Vec3i;
use yanvox::mesh_generation::marching_cubes::{corner_offset, edge_corners};
use yanvox::mesh_generation::{MarchingCubesAlgorithm, Mesh};
use yanvox::voxel::{CompressionType, VolumeConfigType, VoxelVolume};
use yanvox::voxel_data::VoxelData;

/// Signed distance sample, active within half a unit of the surface.
#[derive(Debug, Clone, Copy, PartialEq)]
struct Sdf(f32);

impl VoxelData for Sdf {
    fn active(&self) -> bool {
        self.0.abs() < 0.5
    }

    fn spec_background() -> Self {
        Sdf(0.5)
    }

    fn is_active(&self) -> bool {
        self.0.abs() < 0.5
    }

    fn background() -> Self {
        Sdf(0.5)
    }

    fn duplicate(&self) -> Self {
        *self
    }

    fn same_as(&self, other: &Self) -> bool {
        self == other
    }
}

const LEAF: f32 = 0.05;

fn world(c: Vec3i) -> [f32; 3] {
    [c.x as f32 * LEAF, c.y as f32 * LEAF, c.z as f32 * LEAF]
}

fn sphere_volume() -> (VoxelVolume<Sdf>, usize) {
    let mut v: VoxelVolume<Sdf> =
        VoxelVolume::with_config(VolumeConfigType::Default, CompressionType::Uncompressed).unwrap();
    let lo = (-2.0_f32 / LEAF) as i32;
    let hi = (2.0_f32 / LEAF) as i32;
    let n = v.fill_voxel_bounds(Vec3i::new(lo, lo, lo), Vec3i::new(hi, hi, hi), |c: Vec3i| {
        let p = world(c);
        let d = (p[0] * p[0] + p[1] * p[1] + p[2] * p[2]).sqrt() - 1.0;
        if d.abs() < 0.5 { Some(Sdf(d)) } else { None }
    });
    (v, n)
}

#[test]
fn sphere_fill_stays_in_band() {
    let (v, n) = sphere_volume();
    assert!(n > 0);
    assert_eq!(v.active_count(), n);
    for (c, _) in v.active_voxels() {
        let p = world(c);
        let r = (p[0] * p[0] + p[1] * p[1] + p[2] * p[2]).sqrt();
        assert!(r >= 0.5 - LEAF && r <= 1.5 + LEAF);
    }
}

#[test]
fn sphere_mesh_lies_on_the_surface() {
    let (v, _) = sphere_volume();
    let mc = MarchingCubesAlgorithm::new();
    let mut mesh: Mesh<[f32; 3]> = Mesh::new();
    for (coord, corners) in mc.active_cubes(&v) {
        let values: [f32; 8] = corners.map(|s| s.0);
        let below = values.map(|s| s < 0.0);
        let ci = mc.calculate_cube_index(&below);
        let mut edge_vertices = [[0.0f32; 3]; 12];
        for (e, slot) in edge_vertices.iter_mut().enumerate() {
            let (a, b) = edge_corners(e);
            let (va, vb) = (values[a], values[b]);
            let t = if (vb - va).abs() < 1e-6 { 0.5 } else { ((0.0 - va) / (vb - va)).clamp(0.0, 1.0) };
            let pa = world(coord.plus(corner_offset(a)));
            let pb = world(coord.plus(corner_offset(b)));
            *slot = [pa[0] + (pb[0] - pa[0]) * t, pa[1] + (pb[1] - pa[1]) * t, pa[2] + (pb[2] - pa[2]) * t];
        }
        mc.process_cube(&mut mesh, ci, &edge_vertices);
    }
    assert!(mesh.triangle_count() > 0);
    for t in mesh.triangles() {
        for i in t.indices {
            let p = mesh.vertices()[i];
            let r = (p[0] * p[0] + p[1] * p[1] + p[2] * p[2]).sqrt();
            assert!(r >= 1.0 - LEAF && r <= 1.0 + LEAF, "vertex at distance {r}");
        }
    }
}
