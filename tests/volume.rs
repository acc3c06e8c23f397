use yanvox::grid::key_at;
use yanvox::math::{Bounds3i, Vec3i};
use yanvox::voxel::{CompressionType, VolumeConfigType, VoxelCoordIterator, VoxelError, VoxelVolume};
use yanvox::voxel_data::{BoolVoxel, IntVoxel, VoxelData};

fn volume<T: VoxelData>(kind: VolumeConfigType) -> VoxelVolume<T> {
    VoxelVolume::with_config(kind, CompressionType::Uncompressed).unwrap()
}

#[test]
fn empty_volume_scenario() {
    let v = volume::<i32>(VolumeConfigType::Default);
    assert_eq!(v.active_count(), 0);
    assert_eq!(v.total_count(), 0);
    assert_eq!(v.bounds(), Bounds3i::empty());
    assert!(v.active_voxels().is_empty());
    assert_eq!(*v.get_voxel(Vec3i::new(0, 0, 0)), 0);
}

#[test]
fn write_overwrite_remove_scenario() {
    let mut v = volume::<i32>(VolumeConfigType::Hashx2x1);
    let c = Vec3i::new(1, 2, 3);
    assert_eq!(v.set_voxel(c, 2), None);
    assert_eq!(v.set_voxel(c, 5), Some(2));
    assert_eq!(v.remove_voxel(c), Some(5));
    assert_eq!(v.active_count(), 0);
    assert_eq!(*v.get_voxel(c), 0);
}

#[test]
fn negative_coordinate_snapping_scenario() {
    let mut v = volume::<i32>(VolumeConfigType::Hashx5x4);
    assert_eq!(v.root_log2_cum(), 9);
    let c = Vec3i::new(31, -31, -65);
    assert_eq!(key_at(c, 9), Vec3i::new(0, -512, -512));
    v.set_voxel(c, 1);
    assert_eq!(v.child_count(), 1);
    assert_eq!(v.bounds(), Bounds3i::new(Vec3i::new(0, -512, -512), Vec3i::new(512, 0, 0)));
}

#[test]
fn key_snapping_rounds_down() {
    assert_eq!(key_at(Vec3i::new(-1, -4, -5), 2), Vec3i::new(-4, -4, -8));
    assert_eq!(key_at(Vec3i::new(7, 8, -9), 3), Vec3i::new(0, 8, -16));
    assert_eq!(key_at(Vec3i::new(i32::MIN, i32::MAX, 0), 4), Vec3i::new(i32::MIN, i32::MAX - 15, 0));
}

#[test]
fn read_returns_last_write() {
    let mut v = volume::<i32>(VolumeConfigType::Default);
    v.set_voxel(Vec3i::new(0, 0, 0), 3);
    v.set_voxel(Vec3i::new(1, 0, 0), 4);
    v.set_voxel(Vec3i::new(0, 0, 0), 7);
    v.remove_voxel(Vec3i::new(1, 0, 0));
    v.set_voxel(Vec3i::new(-3, 2, 1), 9);
    assert_eq!(*v.get_voxel(Vec3i::new(0, 0, 0)), 7);
    assert_eq!(*v.get_voxel(Vec3i::new(1, 0, 0)), 0);
    assert_eq!(*v.get_voxel(Vec3i::new(-3, 2, 1)), 9);
    assert_eq!(*v.get_voxel(Vec3i::new(5, 5, 5)), 0);
}

#[test]
fn active_count_tracks_last_writes() {
    let mut v = volume::<i32>(VolumeConfigType::Hashx2x1);
    v.set_voxel(Vec3i::new(0, 0, 0), 1);
    v.set_voxel(Vec3i::new(0, 0, 1), 1);
    v.set_voxel(Vec3i::new(100, -7, 3), 1);
    v.set_voxel(Vec3i::new(0, 0, 1), 0);
    v.remove_voxel(Vec3i::new(100, -7, 3));
    v.set_voxel(Vec3i::new(9, 9, 9), 2);
    assert_eq!(v.active_count(), 2);
    // the inactive payload written over an existing slot stays stored
    assert_eq!(v.total_count(), 3);
}

#[test]
fn active_voxels_lie_in_bounds() {
    let mut v = volume::<i32>(VolumeConfigType::Default);
    v.set_voxel(Vec3i::new(-10, 3, 7), 1);
    v.set_voxel(Vec3i::new(20, -30, 1), 2);
    v.set_voxel(Vec3i::new(0, 0, 0), 3);
    let b = v.bounds();
    let active = v.active_voxels();
    assert_eq!(active.len(), 3);
    for (c, _) in active {
        assert!(b.contains(c));
    }
}

#[test]
fn background_write_creates_no_node() {
    let mut v = volume::<i32>(VolumeConfigType::Hashx5x4);
    assert_eq!(v.set_voxel(Vec3i::new(4, 4, 4), 0), None);
    assert_eq!(v.child_count(), 0);
    assert_eq!(v.total_count(), 0);
    v.set_voxel(Vec3i::new(4, 4, 4), 8);
    assert_eq!(v.child_count(), 1);
}

#[test]
fn bool_payload_volume() {
    let mut v = volume::<BoolVoxel>(VolumeConfigType::Default);
    v.set_voxel(Vec3i::new(2, 2, 2), BoolVoxel(true));
    assert!(v.is_active(Vec3i::new(2, 2, 2)));
    assert!(!v.is_active(Vec3i::new(2, 2, 3)));
    assert_eq!(*v.get_voxel(Vec3i::new(2, 2, 3)), BoolVoxel(false));
}

#[test]
fn int_payload_volume() {
    let mut v = volume::<IntVoxel>(VolumeConfigType::Hashx2x1);
    v.set_voxel(Vec3i::new(-1, -1, -1), IntVoxel(-4));
    assert_eq!(v.active_voxels(), vec![(Vec3i::new(-1, -1, -1), IntVoxel(-4))]);
    assert_eq!(v.bounds(), Bounds3i::new(Vec3i::new(-8, -8, -8), Vec3i::new(0, 0, 0)));
}

#[derive(Debug, Clone, Copy, PartialEq)]
struct AlwaysOn(u8);

impl VoxelData for AlwaysOn {
    fn active(&self) -> bool {
        true
    }

    fn spec_background() -> Self {
        AlwaysOn(0)
    }

    fn is_active(&self) -> bool {
        true
    }

    fn background() -> Self {
        AlwaysOn(0)
    }

    fn duplicate(&self) -> Self {
        *self
    }

    fn same_as(&self, other: &Self) -> bool {
        self == other
    }
}

#[test]
fn active_background_is_refused() {
    let r = VoxelVolume::<AlwaysOn>::with_config(VolumeConfigType::Default, CompressionType::Uncompressed);
    assert!(matches!(r, Err(VoxelError::InactiveBackgroundRequired)));
}

#[test]
fn coordinates_run_x_fastest() {
    let mut it = VoxelCoordIterator::new(Vec3i::new(0, 0, 0), Vec3i::new(2, 2, 2));
    let mut seen = Vec::new();
    while let Some(c) = it.next() {
        seen.push(c);
    }
    assert_eq!(
        seen,
        vec![
            Vec3i::new(0, 0, 0),
            Vec3i::new(1, 0, 0),
            Vec3i::new(0, 1, 0),
            Vec3i::new(1, 1, 0),
            Vec3i::new(0, 0, 1),
            Vec3i::new(1, 0, 1),
            Vec3i::new(0, 1, 1),
            Vec3i::new(1, 1, 1),
        ]
    );
    let mut empty = VoxelCoordIterator::new(Vec3i::new(0, 0, 0), Vec3i::new(0, 3, 3));
    assert_eq!(empty.next(), None);
}

#[test]
fn fill_counts_accepted_payloads() {
    let mut v = volume::<i32>(VolumeConfigType::Default);
    let n = v.fill_voxel_bounds(Vec3i::new(-2, -2, -2), Vec3i::new(2, 2, 2), |c: Vec3i| {
        let d = c.x * c.x + c.y * c.y + c.z * c.z;
        if d <= 2 { Some(d + 1) } else { None }
    });
    // 1 centre, 6 at distance 1, 12 at distance sqrt(2); the box stops below 2
    assert_eq!(n, 19);
    assert_eq!(v.active_count(), 19);
    assert_eq!(*v.get_voxel(Vec3i::new(0, 0, 0)), 1);
    assert_eq!(*v.get_voxel(Vec3i::new(-1, 0, 1)), 3);
    assert_eq!(*v.get_voxel(Vec3i::new(1, 1, 1)), 0);
}

#[test]
fn sphere_band_fill() {
    // a sphere of radius 20 voxels, stored where the distance is within 10
    let mut v = volume::<i32>(VolumeConfigType::Default);
    let n = v.fill_voxel_bounds(Vec3i::new(-40, -40, -40), Vec3i::new(40, 40, 40), |c: Vec3i| {
        let r = ((c.x * c.x + c.y * c.y + c.z * c.z) as f64).sqrt();
        let d = r - 20.0;
        if d.abs() < 10.0 { Some(if d.round() as i32 == 0 { 1000 } else { d.round() as i32 }) } else { None }
    });
    assert!(n > 0);
    assert_eq!(v.active_count(), n);
    for (c, _) in v.active_voxels() {
        let r = ((c.x * c.x + c.y * c.y + c.z * c.z) as f64).sqrt();
        assert!(r >= 10.0 && r <= 30.0);
    }
}

#[test]
fn writes_near_the_top_of_the_grid() {
    let v = volume::<i32>(VolumeConfigType::Default);
    assert!(v.accepts(Vec3i::new(i32::MAX - 4, 0, 0)));
    assert!(!v.accepts(Vec3i::new(i32::MAX - 3, 0, 0)));
    assert!(v.accepts(Vec3i::new(i32::MIN, i32::MIN, i32::MIN)));
}
