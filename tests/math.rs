use yanvox::math::{Bounds3i, Vec3i};

#[test]
fn vector_min_max() {
    let a = Vec3i::new(1, -2, 3);
    let b = Vec3i::new(-1, 5, 3);
    assert_eq!(a.min(b), Vec3i::new(-1, -2, 3));
    assert_eq!(a.max(b), Vec3i::new(1, 5, 3));
    assert_eq!(Vec3i::zero(), Vec3i::new(0, 0, 0));
    assert_eq!(Vec3i::one(), Vec3i::new(1, 1, 1));
    assert_eq!(a.plus(b), Vec3i::new(0, 3, 6));
    assert_eq!(a.minus(b), Vec3i::new(2, -7, 0));
    assert_eq!(a.times(3), Vec3i::new(3, -6, 9));
}

#[test]
fn box_contains_is_half_open() {
    let b = Bounds3i::new(Vec3i::new(0, 0, 0), Vec3i::new(2, 3, 4));
    assert!(b.contains(Vec3i::new(0, 0, 0)));
    assert!(b.contains(Vec3i::new(1, 2, 3)));
    assert!(!b.contains(Vec3i::new(2, 0, 0)));
    assert!(!b.contains(Vec3i::new(0, -1, 0)));
    assert_eq!(b.size(), Vec3i::new(2, 3, 4));
    assert_eq!(b.volume(), 24);
}

#[test]
fn empty_box_is_union_identity() {
    let e = Bounds3i::empty();
    let b = Bounds3i::new(Vec3i::new(-1, 2, 3), Vec3i::new(4, 5, 6));
    assert_eq!(e.expand_bounds(b), b);
    assert!(!e.contains(Vec3i::new(0, 0, 0)));
    let p = Bounds3i::from_point(Vec3i::new(7, 7, 7));
    assert_eq!(e.expand(Vec3i::new(7, 7, 7)), p);
    assert!(b.intersects(Bounds3i::new(Vec3i::new(3, 4, 5), Vec3i::new(9, 9, 9))));
    assert!(!b.intersects(Bounds3i::new(Vec3i::new(4, 4, 5), Vec3i::new(9, 9, 9))));
}
