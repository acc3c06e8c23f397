use yanvox::math::{Bounds3i, Vec3i};
use yanvox::voxel::{ChildNodeTrait, LeafNode, NodeDiagnostics, NodeTrait, NodeType};

#[test]
fn leaf_node_test_child_node_trait() {
    let _leaf = LeafNode::<i32, 6>::new(5, Bounds3i::empty());

    assert_eq!(<LeafNode<i32, 6> as ChildNodeTrait<i32>>::log2(), 6);
    assert_eq!(<LeafNode<i32, 3> as ChildNodeTrait<i32>>::log2(), 3);
    assert_eq!(<LeafNode<i32, 9> as ChildNodeTrait<i32>>::log2(), 9);
}

#[test]
fn leaf_node_test_node_diagnostics() {
    let bounds = Bounds3i::new(Vec3i::new(0, 0, 0), Vec3i::new(8, 8, 8));
    let mut leaf = LeafNode::<i32, 6>::new(5, bounds);

    assert_eq!(leaf.log2_child_size(), 6);
    assert_eq!(leaf.node_type(), NodeType::Leaf);
    assert_eq!(leaf.depth(), 5);
    assert_eq!(leaf.child_count(), 0);

    leaf.set_voxel(Vec3i::new(1, 1, 1), 42);
    leaf.set_voxel(Vec3i::new(2, 2, 2), 24);

    assert_eq!(leaf.child_count(), 2);
}

#[test]
fn test_leaf_node_creation() {
    let bounds = Bounds3i::new(Vec3i::new(0, 0, 0), Vec3i::new(8, 8, 8));
    let leaf = LeafNode::<i32, 6>::new(5, bounds);

    assert_eq!(leaf.level(), 5);
    assert_eq!(leaf.bounds(), bounds);
    assert_eq!(leaf.active_count(), 0);
    assert_eq!(LeafNode::<i32, 6>::child_capacity(), 192);
    assert_eq!(leaf.dimensions(), Vec3i::new(64, 64, 64));
}

#[test]
fn test_voxel_operations() {
    let bounds = Bounds3i::new(Vec3i::new(0, 0, 0), Vec3i::new(8, 8, 8));
    let mut leaf = LeafNode::<i32, 6>::new(5, bounds);

    let result = leaf.set_voxel(Vec3i::new(1, 1, 1), 42);
    assert_eq!(result, None);
    assert_eq!(leaf.active_count(), 1);
    assert!(leaf.is_active(Vec3i::new(1, 1, 1)));

    assert_eq!(*leaf.get_voxel(Vec3i::new(1, 1, 1)), 42);

    let removed = leaf.remove_voxel(Vec3i::new(1, 1, 1));
    assert_eq!(removed, Some(42));
    assert_eq!(leaf.active_count(), 0);
    assert!(!leaf.is_active(Vec3i::new(1, 1, 1)));
}

#[test]
fn leaf_node_test_different_powers() {
    assert_eq!(LeafNode::<i32, 3>::child_capacity(), 24);
    assert_eq!(LeafNode::<i32, 5>::child_capacity(), 96);
    assert_eq!(LeafNode::<i32, 6>::child_capacity(), 192);

    assert_eq!(LeafNode::<i32, 3>::calculate_dimensions(), Vec3i::new(8, 8, 8));
    assert_eq!(LeafNode::<i32, 5>::calculate_dimensions(), Vec3i::new(32, 32, 32));
    assert_eq!(LeafNode::<i32, 6>::calculate_dimensions(), Vec3i::new(64, 64, 64));
}

#[test]
fn leaf_node_convert_coord_to_index() {
    let bounds = Bounds3i::new(Vec3i::new(8, 16, 32), Vec3i::new(16, 24, 40));
    let leaf = LeafNode::<i32, 3>::new(3, bounds);

    assert!(!leaf.contains_coord(Vec3i::new(-5, -1, 4)));
    assert!(leaf.contains_coord(Vec3i::new(13, 21, 39)));
    assert_eq!(leaf.coord_to_index(Vec3i::new(15, 23, 33)), Some(127));
}

#[test]
fn leaf_node_convert_index_to_coord() {
    let bounds = Bounds3i::new(Vec3i::new(8, 24, 32), Vec3i::new(16, 32, 40));
    let leaf = LeafNode::<i32, 3>::new(3, bounds);
    assert_eq!(leaf.index_to_coord(7 + 2 * 8 + 4 * 8 * 8), Vec3i::new(15, 26, 36));
}

#[test]
fn leaf_write_outside_bounds_is_ignored() {
    let bounds = Bounds3i::new(Vec3i::new(0, 0, 0), Vec3i::new(4, 4, 4));
    let mut leaf = LeafNode::<i32, 2>::new(2, bounds);
    assert_eq!(leaf.set_voxel(Vec3i::new(4, 0, 0), 9), None);
    assert_eq!(leaf.total_count(), 0);
    assert_eq!(*leaf.get_voxel(Vec3i::new(4, 0, 0)), 0);
}

#[test]
fn leaf_replacing_active_keeps_count() {
    let bounds = Bounds3i::new(Vec3i::new(0, 0, 0), Vec3i::new(4, 4, 4));
    let mut leaf = LeafNode::<i32, 2>::new(2, bounds);
    leaf.set_voxel(Vec3i::new(1, 2, 3), 7);
    assert_eq!(leaf.set_voxel(Vec3i::new(1, 2, 3), 8), Some(7));
    assert_eq!(leaf.active_count(), 1);
    // an inactive payload is stored but not counted as active
    leaf.set_voxel(Vec3i::new(0, 0, 0), 0);
    assert_eq!(leaf.active_count(), 1);
    assert_eq!(leaf.total_count(), 2);
    assert_eq!(leaf.active_voxels(), vec![(Vec3i::new(1, 2, 3), 8)]);
    assert_eq!(leaf.all_voxels().len(), 2);
}

#[test]
fn leaf_clear_and_optimize() {
    let bounds = Bounds3i::new(Vec3i::new(0, 0, 0), Vec3i::new(4, 4, 4));
    let mut leaf = LeafNode::<i32, 2>::new(2, bounds);
    leaf.set_voxel(Vec3i::new(0, 0, 0), 5);
    leaf.set_voxel(Vec3i::new(1, 0, 0), 0);
    leaf.set_voxel(Vec3i::new(2, 0, 0), 6);
    assert_eq!(leaf.total_count(), 3);
    leaf.optimize();
    assert_eq!(leaf.total_count(), 2);
    assert_eq!(leaf.active_count(), 2);
    assert_eq!(*leaf.get_voxel(Vec3i::new(2, 0, 0)), 6);
    leaf.clear();
    assert_eq!(leaf.total_count(), 0);
    assert_eq!(leaf.active_count(), 0);
    assert!(!leaf.is_at_capacity());
    assert!(leaf.memory_usage() >= 64 * std::mem::size_of::<Option<i32>>());
}
