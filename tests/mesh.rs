use yanvox::mesh_generation::marching_cubes::{corner_offset, edge_corners, triangle_row};
use yanvox::mesh_generation::stl::{binary_stl_bytes, binary_stl_header};
use yanvox::mesh_generation::{MarchingCubesAlgorithm, Mesh, Triangle};
use yanvox::math::Vec3i;
use yanvox::voxel::{CompressionType, VolumeConfigType, VoxelVolume};

#[test]
fn cube_index_sets_bits_of_low_corners() {
    let mc = MarchingCubesAlgorithm::new();
    assert_eq!(mc.calculate_cube_index(&[false; 8]), 0);
    assert_eq!(mc.calculate_cube_index(&[true; 8]), 255);
    assert_eq!(mc.calculate_cube_index(&[true, false, false, false, false, false, false, true]), 129);
    assert_eq!(mc.calculate_cube_index(&[false, true, true, false, false, false, false, false]), 6);
}

#[test]
fn corner_and_edge_tables() {
    assert_eq!(corner_offset(2), Vec3i::new(1, 1, 0));
    assert_eq!(corner_offset(7), Vec3i::new(0, 1, 1));
    assert_eq!(edge_corners(0), (0, 1));
    assert_eq!(edge_corners(3), (3, 0));
    assert_eq!(edge_corners(7), (7, 4));
    assert_eq!(edge_corners(11), (3, 7));
    assert_eq!(triangle_row(1)[..4], [0, 8, 3, -1]);
    assert_eq!(triangle_row(0)[0], -1);
    assert_eq!(triangle_row(255)[0], -1);
}

#[test]
fn one_corner_cube_emits_one_triangle() {
    let mc = MarchingCubesAlgorithm::new();
    let mut mesh: Mesh<u32> = Mesh::new();
    let edge_vertices: [u32; 12] = [10, 11, 12, 13, 14, 15, 16, 17, 18, 19, 20, 21];
    mc.process_cube(&mut mesh, 1, &edge_vertices);
    assert_eq!(mesh.triangle_count(), 1);
    assert_eq!(mesh.vertex_count(), 3);
    assert_eq!(mesh.triangles()[0], Triangle { indices: [0, 1, 2] });
    assert_eq!(mesh.vertices(), &vec![10, 18, 13]);
}

#[test]
fn uniform_cubes_emit_nothing() {
    let mc = MarchingCubesAlgorithm::new();
    let mut mesh: Mesh<u32> = Mesh::new();
    let edge_vertices = [0u32; 12];
    mc.process_cube(&mut mesh, 0, &edge_vertices);
    mc.process_cube(&mut mesh, 255, &edge_vertices);
    assert!(mesh.is_empty());
    assert_eq!(mesh.triangle_count(), 0);
}

#[test]
fn every_triangle_references_valid_vertices() {
    let mc = MarchingCubesAlgorithm::new();
    let mut mesh: Mesh<u32> = Mesh::new();
    let edge_vertices = [1u32; 12];
    for ci in 0..=255u8 {
        mc.process_cube(&mut mesh, ci, &edge_vertices);
    }
    assert!(mesh.triangle_count() > 0);
    for t in mesh.triangles() {
        for i in t.indices {
            assert!(i < mesh.vertex_count());
        }
    }
    mesh.clear();
    assert!(mesh.is_empty());
}

#[test]
fn active_cubes_need_all_corners() {
    let mut v: VoxelVolume<i32> = VoxelVolume::with_config(VolumeConfigType::Default, CompressionType::Uncompressed).unwrap();
    for z in 0..2 {
        for y in 0..2 {
            for x in 0..3 {
                v.set_voxel(Vec3i::new(x, y, z), 1);
            }
        }
    }
    let mc = MarchingCubesAlgorithm::new();
    let cubes = mc.active_cubes(&v);
    // the cubes at x = 0 and x = 1 have all eight corners stored and active
    assert_eq!(cubes.len(), 2);
    let mut lows: Vec<Vec3i> = cubes.iter().map(|c| c.0).collect();
    lows.sort_by_key(|c| c.x);
    assert_eq!(lows, vec![Vec3i::new(0, 0, 0), Vec3i::new(1, 0, 0)]);
    assert_eq!(cubes[0].1, [1; 8]);
    assert_eq!(mc.get_cube_corner_values(&v, Vec3i::new(2, 0, 0)), None);
    assert_eq!(mc.get_cube_corner_values(&v, Vec3i::new(1, 0, 0)), Some([1; 8]));
}

#[test]
fn binary_stl_layout() {
    let facet = [7u8; 48];
    let bytes = binary_stl_bytes(&vec![facet]);
    assert_eq!(bytes.len(), 84 + 50);
    assert_eq!(&bytes[..25], b"yanvox_mesh_binary_export");
    assert!(bytes[25..80].iter().all(|b| *b == 0));
    assert_eq!(&bytes[80..84], &[1, 0, 0, 0]);
    assert_eq!(&bytes[84..132], &facet[..]);
    assert_eq!(&bytes[132..134], &[0, 0]);
    assert_eq!(&binary_stl_header(0x01020304)[80..84], &[4, 3, 2, 1]);
}
