use yanvox::math::{Bounds3i, Vec3i};
use yanvox::voxel::{LeafNode, NodeDiagnostics, NodeTrait, RootNode};

#[test]
fn test_root_node() {
    let root = RootNode::<i32, LeafNode<i32, 6>>::new().unwrap();
    assert_eq!(root.level(), 0);
    assert_eq!(root.child_count(), 0);
    assert_eq!(root.bounds(), Bounds3i::empty());
    assert_eq!(root.is_active(Vec3i::new(0, 0, 0)), false);
    assert_eq!(root.active_count(), 0);
    assert_eq!(root.total_count(), 0);
}

#[test]
fn test_root_node_with_children() {
    let mut root = RootNode::<i32, LeafNode<i32, 6>>::new().unwrap();
    root.set_voxel(Vec3i::new(1, 2, 3), 2);
    assert_eq!(root.child_count(), 1);
    assert_eq!(root.is_active(Vec3i::new(1, 2, 3)), true);
    assert_eq!(root.get_voxel(Vec3i::new(1, 2, 3)), &2);
    assert_eq!(root.active_count(), 1);
    assert_eq!(root.total_count(), 1);
}

#[test]
fn test_root_node_with_children_and_remove() {
    let mut root = RootNode::<i32, LeafNode<i32, 6>>::new().unwrap();
    root.set_voxel(Vec3i::new(1, 2, 3), 2);
    assert_eq!(root.child_count(), 1);
    assert_eq!(root.is_active(Vec3i::new(1, 2, 3)), true);
    assert_eq!(root.get_voxel(Vec3i::new(1, 2, 3)), &2);
    assert_eq!(root.active_count(), 1);
    assert_eq!(root.total_count(), 1);

    let removed = root.remove_voxel(Vec3i::new(1, 2, 3));
    assert_eq!(removed, Some(2));
    assert_eq!(root.child_count(), 1);
    assert_eq!(root.is_active(Vec3i::new(1, 2, 3)), false);
    assert_eq!(root.get_voxel(Vec3i::new(1, 2, 3)), &0);
    assert_eq!(root.active_count(), 0);
    assert_eq!(root.total_count(), 0);
}

#[test]
fn test_child_key_calculation() {
    let root = RootNode::<i32, LeafNode<i32, 5>>::new().unwrap();

    assert_eq!(root.log2_child_size(), 5);
    assert_eq!(root.calculate_child_key(Vec3i::new(0, 0, 0)), Vec3i::new(0, 0, 0));
    assert_eq!(root.calculate_child_key(Vec3i::new(33, 2, 3)), Vec3i::new(32, 0, 0));
    assert_eq!(root.calculate_child_key(Vec3i::new(70, 38, 3)), Vec3i::new(64, 32, 0));
    assert_eq!(root.calculate_child_key(Vec3i::new(31, -31, -65)), Vec3i::new(0, -32, -96));
}

#[test]
fn root_bounds_cover_children() {
    let mut root = RootNode::<i32, LeafNode<i32, 2>>::new().unwrap();
    root.set_voxel(Vec3i::new(1, 1, 1), 3);
    root.set_voxel(Vec3i::new(-5, 9, 0), 4);
    assert_eq!(root.bounds(), Bounds3i::new(Vec3i::new(-8, 0, 0), Vec3i::new(4, 12, 4)));
    assert_eq!(root.child_count(), 2);
}
