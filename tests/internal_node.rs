use yanvox::math::{Bounds3i, Vec3i};
use yanvox::voxel::{ChildNodeTrait, InternalNode, LeafNode, NodeDiagnostics, NodeTrait, NodeType};

#[test]
fn internal_node_test_child_node_trait() {
    assert_eq!(<InternalNode<i32, LeafNode<i32, 1>, 2> as ChildNodeTrait<i32>>::log2(), 2);
    assert_eq!(<InternalNode<i32, LeafNode<i32, 2>, 3> as ChildNodeTrait<i32>>::log2(), 3);
    assert_eq!(<InternalNode<i32, LeafNode<i32, 3>, 4> as ChildNodeTrait<i32>>::log2(), 4);

    assert_eq!(<InternalNode<i32, LeafNode<i32, 1>, 2> as ChildNodeTrait<i32>>::cum_log2(), 3);
    assert_eq!(<InternalNode<i32, LeafNode<i32, 2>, 3> as ChildNodeTrait<i32>>::cum_log2(), 5);
    assert_eq!(<InternalNode<i32, LeafNode<i32, 3>, 4> as ChildNodeTrait<i32>>::cum_log2(), 7);
}

#[test]
fn internal_node_test_node_diagnostics() {
    let internal = InternalNode::<i32, LeafNode<i32, 2>, 3>::from_level_and_coord(5, Vec3i::zero(), 0);

    assert_eq!(internal.log2_child_size(), 3);
    assert_eq!(internal.node_type(), NodeType::Internal);
    assert_eq!(internal.depth(), 5);
    assert_eq!(internal.child_count(), 0);
}

#[test]
fn internal_node_convert_coord_to_index() {
    let internal = InternalNode::<i32, LeafNode<i32, 2>, 3>::from_level_and_coord(5, Vec3i::zero(), 0);

    assert_eq!(internal.level(), 5);
    assert_eq!(internal.bounds(), Bounds3i::new(Vec3i::zero(), Vec3i::new(32, 32, 32)));
    assert_eq!(internal.active_count(), 0);
    assert_eq!(internal.dimensions(), Vec3i::new(32, 32, 32));
    assert_eq!(InternalNode::<i32, LeafNode<i32, 2>, 3>::child_capacity(), 512);

    assert_eq!(internal.coord_to_index(Vec3i::new(0, 0, 0)), Some(0));
    assert_eq!(internal.coord_to_index(Vec3i::new(1, 1, 1)), Some(0));
    assert_eq!(internal.coord_to_index(Vec3i::new(4, 2, 2)), Some(1));
    assert_eq!(internal.coord_to_index(Vec3i::new(2, 4, 2)), Some(8));
    assert_eq!(internal.coord_to_index(Vec3i::new(2, 2, 4)), Some(64));
    assert_eq!(internal.coord_to_index(Vec3i::new(30, 15, 10)), Some(159));

    assert_eq!(internal.coord_to_index(Vec3i::new(40, 5, 1)), None);
    assert_eq!(internal.coord_to_index(Vec3i::new(32, 1, 1)), None);

    let internal =
        InternalNode::<i32, LeafNode<i32, 2>, 3>::from_level_and_coord(5, Vec3i::new(32, 64, 96), 0);
    assert_eq!(internal.coord_to_index(Vec3i::new(32, 64, 96)), Some(0));
    assert_eq!(internal.coord_to_index(Vec3i::new(33, 65, 97)), Some(0));
    assert_eq!(internal.coord_to_index(Vec3i::new(62, 79, 106)), Some(159));
    assert_eq!(internal.coord_to_index(Vec3i::new(15, 45, 85)), None);
    assert_eq!(internal.coord_to_index(Vec3i::new(100, 120, 150)), None);
}

#[test]
fn internal_node_convert_index_to_coord() {
    let internal = InternalNode::<i32, LeafNode<i32, 2>, 3>::from_level_and_coord(5, Vec3i::zero(), 0);
    assert_eq!(internal.index_to_coord(0), Vec3i::new(0, 0, 0));
    assert_eq!(internal.index_to_coord(1), Vec3i::new(4, 0, 0));
    assert_eq!(internal.index_to_coord(8), Vec3i::new(0, 4, 0));
    assert_eq!(internal.index_to_coord(64), Vec3i::new(0, 0, 4));
    assert_eq!(internal.index_to_coord(159), Vec3i::new(28, 12, 8));

    let internal =
        InternalNode::<i32, LeafNode<i32, 2>, 3>::from_level_and_coord(5, Vec3i::new(32, 64, 96), 0);
    assert_eq!(internal.index_to_coord(0), Vec3i::new(32, 64, 96));
    assert_eq!(internal.index_to_coord(159), Vec3i::new(60, 76, 104));
}

#[test]
fn internal_node_test_different_powers() {
    assert_eq!(InternalNode::<i32, LeafNode<i32, 1>, 2>::child_capacity(), 64);
    assert_eq!(InternalNode::<i32, LeafNode<i32, 1>, 2>::data_dimensions(), Vec3i::new(4, 4, 4));
    assert_eq!(InternalNode::<i32, LeafNode<i32, 1>, 2>::calculate_dimensions(), Vec3i::new(8, 8, 8));
}

#[test]
fn internal_node_background_write_creates_no_child() {
    let mut internal = InternalNode::<i32, LeafNode<i32, 1>, 2>::from_level_and_coord(1, Vec3i::zero(), 0);
    assert_eq!(internal.set_voxel(Vec3i::new(3, 3, 3), 0), None);
    assert_eq!(internal.child_count(), 0);
    assert_eq!(internal.set_voxel(Vec3i::new(3, 3, 3), 6), None);
    assert_eq!(internal.child_count(), 1);
    assert_eq!(*internal.get_voxel(Vec3i::new(3, 3, 3)), 6);
    assert_eq!(internal.remove_voxel(Vec3i::new(3, 3, 3)), Some(6));
    assert_eq!(internal.child_count(), 1);
    assert_eq!(internal.total_count(), 0);
}

#[test]
fn internal_node_children_and_clear() {
    let mut internal = InternalNode::<i32, LeafNode<i32, 1>, 2>::from_level_and_coord(1, Vec3i::new(8, 0, -8), 0);
    internal.set_voxel(Vec3i::new(9, 1, -7), 1);
    internal.set_voxel(Vec3i::new(15, 7, -1), 2);
    let mut origins: Vec<Vec3i> = internal.all_children().iter().map(|(o, _)| *o).collect();
    origins.sort_by_key(|c| c.x);
    assert_eq!(origins, vec![Vec3i::new(8, 0, -8), Vec3i::new(14, 6, -2)]);
    assert_eq!(internal.active_count(), 2);
    assert!(!internal.is_at_capacity());
    internal.clear();
    assert_eq!(internal.child_count(), 0);
    assert_eq!(internal.total_count(), 0);
    assert_eq!(*internal.get_voxel(Vec3i::new(9, 1, -7)), 0);
    assert!(internal.memory_usage() >= 64 * std::mem::size_of::<Option<LeafNode<i32, 1>>>());
}
