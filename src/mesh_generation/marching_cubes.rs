//! The marching-cubes lookup data: corner offsets, the corners each edge
//! joins, and the triangulation of each of the 256 corner patterns.

use vstd::prelude::*;
use crate::math::Vec3i;

verus! {

/// Offset of cube corner `i` from the cube's low corner.
pub open spec fn spec_corner_offset(i: int) -> Vec3i {
    if i == 0 {
        Vec3i { x: 0, y: 0, z: 0 }
    } else if i == 1 {
        Vec3i { x: 1, y: 0, z: 0 }
    } else if i == 2 {
        Vec3i { x: 1, y: 1, z: 0 }
    } else if i == 3 {
        Vec3i { x: 0, y: 1, z: 0 }
    } else if i == 4 {
        Vec3i { x: 0, y: 0, z: 1 }
    } else if i == 5 {
        Vec3i { x: 1, y: 0, z: 1 }
    } else if i == 6 {
        Vec3i { x: 1, y: 1, z: 1 }
    } else {
        Vec3i { x: 0, y: 1, z: 1 }
    }
}

/// The two corners joined by cube edge `e`: edges 0 to 3 run round the bottom
/// face, 4 to 7 round the top face, 8 to 11 upwards.
pub open spec fn spec_edge_corners(e: int) -> (usize, usize) {
    if e < 4 {
        (e as usize, ((e + 1) % 4) as usize)
    } else if e < 8 {
        (e as usize, (4 + (e - 3) % 4) as usize)
    } else {
        ((e - 8) as usize, (e - 4) as usize)
    }
}

/// The triangulation table: for corner pattern `ci`, up to five triangles
/// as triples of edge numbers, ended by -1.
pub open spec fn spec_triangle_row(ci: u8) -> [i8; 16] {
    if ci == 0 {
        [-1i8, -1i8, -1i8, -1i8, -1i8, -1i8, -1i8, -1i8, -1i8, -1i8, -1i8, -1i8, -1i8, -1i8, -1i8, -1i8]
    } else if ci == 1 {
        [0i8, 8i8, 3i8, -1i8, -1i8, -1i8, -1i8, -1i8, -1i8, -1i8, -1i8, -1i8, -1i8, -1i8, -1i8, -1i8]
    } else if ci == 2 {
        [0i8, 1i8, 9i8, -1i8, -1i8, -1i8, -1i8, -1i8, -1i8, -1i8, -1i8, -1i8, -1i8, -1i8, -1i8, -1i8]
    } else if ci == 3 {
        [1i8, 8i8, 3i8, 9i8, 8i8, 1i8, -1i8, -1i8, -1i8, -1i8, -1i8, -1i8, -1i8, -1i8, -1i8, -1i8]
    } else if ci == 4 {
        [1i8, 2i8, 10i8, -1i8, -1i8, -1i8, -1i8, -1i8, -1i8, -1i8, -1i8, -1i8, -1i8, -1i8, -1i8, -1i8]
    } else if ci == 5 {
        [0i8, 8i8, 3i8, 1i8, 2i8, 10i8, -1i8, -1i8, -1i8, -1i8, -1i8, -1i8, -1i8, -1i8, -1i8, -1i8]
    } else if ci == 6 {
        [9i8, 2i8, 10i8, 0i8, 2i8, 9i8, -1i8, -1i8, -1i8, -1i8, -1i8, -1i8, -1i8, -1i8, -1i8, -1i8]
    } else if ci == 7 {
        [2i8, 8i8, 3i8, 2i8, 10i8, 8i8, 10i8, 9i8, 8i8, -1i8, -1i8, -1i8, -1i8, -1i8, -1i8, -1i8]
    } else if ci == 8 {
        [3i8, 11i8, 2i8, -1i8, -1i8, -1i8, -1i8, -1i8, -1i8, -1i8, -1i8, -1i8, -1i8, -1i8, -1i8, -1i8]
    } else if ci == 9 {
        [0i8, 11i8, 2i8, 8i8, 11i8, 0i8, -1i8, -1i8, -1i8, -1i8, -1i8, -1i8, -1i8, -1i8, -1i8, -1i8]
    } else if ci == 10 {
        [1i8, 9i8, 0i8, 2i8, 3i8, 11i8, -1i8, -1i8, -1i8, -1i8, -1i8, -1i8, -1i8, -1i8, -1i8, -1i8]
    } else if ci == 11 {
        [1i8, 11i8, 2i8, 1i8, 9i8, 11i8, 9i8, 8i8, 11i8, -1i8, -1i8, -1i8, -1i8, -1i8, -1i8, -1i8]
    } else if ci == 12 {
        [3i8, 10i8, 1i8, 11i8, 10i8, 3i8, -1i8, -1i8, -1i8, -1i8, -1i8, -1i8, -1i8, -1i8, -1i8, -1i8]
    } else if ci == 13 {
        [0i8, 10i8, 1i8, 0i8, 8i8, 10i8, 8i8, 11i8, 10i8, -1i8, -1i8, -1i8, -1i8, -1i8, -1i8, -1i8]
    } else if ci == 14 {
        [3i8, 9i8, 0i8, 3i8, 11i8, 9i8, 11i8, 10i8, 9i8, -1i8, -1i8, -1i8, -1i8, -1i8, -1i8, -1i8]
    } else if ci == 15 {
        [9i8, 8i8, 10i8, 10i8, 8i8, 11i8, -1i8, -1i8, -1i8, -1i8, -1i8, -1i8, -1i8, -1i8, -1i8, -1i8]
    } else if ci == 16 {
        [4i8, 7i8, 8i8, -1i8, -1i8, -1i8, -1i8, -1i8, -1i8, -1i8, -1i8, -1i8, -1i8, -1i8, -1i8, -1i8]
    } else if ci == 17 {
        [4i8, 3i8, 0i8, 7i8, 3i8, 4i8, -1i8, -1i8, -1i8, -1i8, -1i8, -1i8, -1i8, -1i8, -1i8, -1i8]
    } else if ci == 18 {
        [0i8, 1i8, 9i8, 8i8, 4i8, 7i8, -1i8, -1i8, -1i8, -1i8, -1i8, -1i8, -1i8, -1i8, -1i8, -1i8]
    } else if ci == 19 {
        [4i8, 1i8, 9i8, 4i8, 7i8, 1i8, 7i8, 3i8, 1i8, -1i8, -1i8, -1i8, -1i8, -1i8, -1i8, -1i8]
    } else if ci == 20 {
        [1i8, 2i8, 10i8, 8i8, 4i8, 7i8, -1i8, -1i8, -1i8, -1i8, -1i8, -1i8, -1i8, -1i8, -1i8, -1i8]
    } else if ci == 21 {
        [3i8, 4i8, 7i8, 3i8, 0i8, 4i8, 1i8, 2i8, 10i8, -1i8, -1i8, -1i8, -1i8, -1i8, -1i8, -1i8]
    } else if ci == 22 {
        [9i8, 2i8, 10i8, 9i8, 0i8, 2i8, 8i8, 4i8, 7i8, -1i8, -1i8, -1i8, -1i8, -1i8, -1i8, -1i8]
    } else if ci == 23 {
        [2i8, 10i8, 9i8, 2i8, 9i8, 7i8, 2i8, 7i8, 3i8, 7i8, 9i8, 4i8, -1i8, -1i8, -1i8, -1i8]
    } else if ci == 24 {
        [8i8, 4i8, 7i8, 3i8, 11i8, 2i8, -1i8, -1i8, -1i8, -1i8, -1i8, -1i8, -1i8, -1i8, -1i8, -1i8]
    } else if ci == 25 {
        [11i8, 4i8, 7i8, 11i8, 2i8, 4i8, 2i8, 0i8, 4i8, -1i8, -1i8, -1i8, -1i8, -1i8, -1i8, -1i8]
    } else if ci == 26 {
        [9i8, 0i8, 1i8, 8i8, 4i8, 7i8, 2i8, 3i8, 11i8, -1i8, -1i8, -1i8, -1i8, -1i8, -1i8, -1i8]
    } else if ci == 27 {
        [4i8, 7i8, 11i8, 9i8, 4i8, 11i8, 9i8, 11i8, 2i8, 9i8, 2i8, 1i8, -1i8, -1i8, -1i8, -1i8]
    } else if ci == 28 {
        [3i8, 10i8, 1i8, 3i8, 11i8, 10i8, 7i8, 8i8, 4i8, -1i8, -1i8, -1i8, -1i8, -1i8, -1i8, -1i8]
    } else if ci == 29 {
        [1i8, 11i8, 10i8, 1i8, 4i8, 11i8, 1i8, 0i8, 4i8, 7i8, 11i8, 4i8, -1i8, -1i8, -1i8, -1i8]
    } else if ci == 30 {
        [4i8, 7i8, 8i8, 9i8, 0i8, 11i8, 9i8, 11i8, 10i8, 11i8, 0i8, 3i8, -1i8, -1i8, -1i8, -1i8]
    } else if ci == 31 {
        [4i8, 7i8, 11i8, 4i8, 11i8, 9i8, 9i8, 11i8, 10i8, -1i8, -1i8, -1i8, -1i8, -1i8, -1i8, -1i8]
    } else if ci == 32 {
        [9i8, 5i8, 4i8, -1i8, -1i8, -1i8, -1i8, -1i8, -1i8, -1i8, -1i8, -1i8, -1i8, -1i8, -1i8, -1i8]
    } else if ci == 33 {
        [9i8, 5i8, 4i8, 0i8, 8i8, 3i8, -1i8, -1i8, -1i8, -1i8, -1i8, -1i8, -1i8, -1i8, -1i8, -1i8]
    } else if ci == 34 {
        [0i8, 5i8, 4i8, 1i8, 5i8, 0i8, -1i8, -1i8, -1i8, -1i8, -1i8, -1i8, -1i8, -1i8, -1i8, -1i8]
    } else if ci == 35 {
        [8i8, 5i8, 4i8, 8i8, 3i8, 5i8, 3i8, 1i8, 5i8, -1i8, -1i8, -1i8, -1i8, -1i8, -1i8, -1i8]
    } else if ci == 36 {
        [1i8, 2i8, 10i8, 9i8, 5i8, 4i8, -1i8, -1i8, -1i8, -1i8, -1i8, -1i8, -1i8, -1i8, -1i8, -1i8]
    } else if ci == 37 {
        [3i8, 0i8, 8i8, 1i8, 2i8, 10i8, 4i8, 9i8, 5i8, -1i8, -1i8, -1i8, -1i8, -1i8, -1i8, -1i8]
    } else if ci == 38 {
        [5i8, 2i8, 10i8, 5i8, 4i8, 2i8, 4i8, 0i8, 2i8, -1i8, -1i8, -1i8, -1i8, -1i8, -1i8, -1i8]
    } else if ci == 39 {
        [2i8, 10i8, 5i8, 3i8, 2i8, 5i8, 3i8, 5i8, 4i8, 3i8, 4i8, 8i8, -1i8, -1i8, -1i8, -1i8]
    } else if ci == 40 {
        [9i8, 5i8, 4i8, 2i8, 3i8, 11i8, -1i8, -1i8, -1i8, -1i8, -1i8, -1i8, -1i8, -1i8, -1i8, -1i8]
    } else if ci == 41 {
        [0i8, 11i8, 2i8, 0i8, 8i8, 11i8, 4i8, 9i8, 5i8, -1i8, -1i8, -1i8, -1i8, -1i8, -1i8, -1i8]
    } else if ci == 42 {
        [0i8, 5i8, 4i8, 0i8, 1i8, 5i8, 2i8, 3i8, 11i8, -1i8, -1i8, -1i8, -1i8, -1i8, -1i8, -1i8]
    } else if ci == 43 {
        [2i8, 1i8, 5i8, 2i8, 5i8, 8i8, 2i8, 8i8, 11i8, 4i8, 8i8, 5i8, -1i8, -1i8, -1i8, -1i8]
    } else if ci == 44 {
        [10i8, 3i8, 11i8, 10i8, 1i8, 3i8, 9i8, 5i8, 4i8, -1i8, -1i8, -1i8, -1i8, -1i8, -1i8, -1i8]
    } else if ci == 45 {
        [4i8, 9i8, 5i8, 0i8, 8i8, 1i8, 8i8, 10i8, 1i8, 8i8, 11i8, 10i8, -1i8, -1i8, -1i8, -1i8]
    } else if ci == 46 {
        [5i8, 4i8, 0i8, 5i8, 0i8, 11i8, 5i8, 11i8, 10i8, 11i8, 0i8, 3i8, -1i8, -1i8, -1i8, -1i8]
    } else if ci == 47 {
        [5i8, 4i8, 8i8, 5i8, 8i8, 10i8, 10i8, 8i8, 11i8, -1i8, -1i8, -1i8, -1i8, -1i8, -1i8, -1i8]
    } else if ci == 48 {
        [9i8, 7i8, 8i8, 5i8, 7i8, 9i8, -1i8, -1i8, -1i8, -1i8, -1i8, -1i8, -1i8, -1i8, -1i8, -1i8]
    } else if ci == 49 {
        [9i8, 3i8, 0i8, 9i8, 5i8, 3i8, 5i8, 7i8, 3i8, -1i8, -1i8, -1i8, -1i8, -1i8, -1i8, -1i8]
    } else if ci == 50 {
        [0i8, 7i8, 8i8, 0i8, 1i8, 7i8, 1i8, 5i8, 7i8, -1i8, -1i8, -1i8, -1i8, -1i8, -1i8, -1i8]
    } else if ci == 51 {
        [1i8, 5i8, 3i8, 3i8, 5i8, 7i8, -1i8, -1i8, -1i8, -1i8, -1i8, -1i8, -1i8, -1i8, -1i8, -1i8]
    } else if ci == 52 {
        [9i8, 7i8, 8i8, 9i8, 5i8, 7i8, 10i8, 1i8, 2i8, -1i8, -1i8, -1i8, -1i8, -1i8, -1i8, -1i8]
    } else if ci == 53 {
        [10i8, 1i8, 2i8, 9i8, 5i8, 0i8, 5i8, 3i8, 0i8, 5i8, 7i8, 3i8, -1i8, -1i8, -1i8, -1i8]
    } else if ci == 54 {
        [8i8, 0i8, 2i8, 8i8, 2i8, 5i8, 8i8, 5i8, 7i8, 10i8, 5i8, 2i8, -1i8, -1i8, -1i8, -1i8]
    } else if ci == 55 {
        [2i8, 10i8, 5i8, 2i8, 5i8, 3i8, 3i8, 5i8, 7i8, -1i8, -1i8, -1i8, -1i8, -1i8, -1i8, -1i8]
    } else if ci == 56 {
        [7i8, 9i8, 5i8, 7i8, 8i8, 9i8, 3i8, 11i8, 2i8, -1i8, -1i8, -1i8, -1i8, -1i8, -1i8, -1i8]
    } else if ci == 57 {
        [9i8, 5i8, 7i8, 9i8, 7i8, 2i8, 9i8, 2i8, 0i8, 2i8, 7i8, 11i8, -1i8, -1i8, -1i8, -1i8]
    } else if ci == 58 {
        [2i8, 3i8, 11i8, 0i8, 1i8, 8i8, 1i8, 7i8, 8i8, 1i8, 5i8, 7i8, -1i8, -1i8, -1i8, -1i8]
    } else if ci == 59 {
        [11i8, 2i8, 1i8, 11i8, 1i8, 7i8, 7i8, 1i8, 5i8, -1i8, -1i8, -1i8, -1i8, -1i8, -1i8, -1i8]
    } else if ci == 60 {
        [9i8, 5i8, 8i8, 8i8, 5i8, 7i8, 10i8, 1i8, 3i8, 10i8, 3i8, 11i8, -1i8, -1i8, -1i8, -1i8]
    } else if ci == 61 {
        [5i8, 7i8, 0i8, 5i8, 0i8, 9i8, 7i8, 11i8, 0i8, 1i8, 0i8, 10i8, 11i8, 10i8, 0i8, -1i8]
    } else if ci == 62 {
        [11i8, 10i8, 0i8, 11i8, 0i8, 3i8, 10i8, 5i8, 0i8, 8i8, 0i8, 7i8, 5i8, 7i8, 0i8, -1i8]
    } else if ci == 63 {
        [11i8, 10i8, 5i8, 7i8, 11i8, 5i8, -1i8, -1i8, -1i8, -1i8, -1i8, -1i8, -1i8, -1i8, -1i8, -1i8]
    } else if ci == 64 {
        [10i8, 6i8, 5i8, -1i8, -1i8, -1i8, -1i8, -1i8, -1i8, -1i8, -1i8, -1i8, -1i8, -1i8, -1i8, -1i8]
    } else if ci == 65 {
        [0i8, 8i8, 3i8, 5i8, 10i8, 6i8, -1i8, -1i8, -1i8, -1i8, -1i8, -1i8, -1i8, -1i8, -1i8, -1i8]
    } else if ci == 66 {
        [9i8, 0i8, 1i8, 5i8, 10i8, 6i8, -1i8, -1i8, -1i8, -1i8, -1i8, -1i8, -1i8, -1i8, -1i8, -1i8]
    } else if ci == 67 {
        [1i8, 8i8, 3i8, 1i8, 9i8, 8i8, 5i8, 10i8, 6i8, -1i8, -1i8, -1i8, -1i8, -1i8, -1i8, -1i8]
    } else if ci == 68 {
        [1i8, 6i8, 5i8, 2i8, 6i8, 1i8, -1i8, -1i8, -1i8, -1i8, -1i8, -1i8, -1i8, -1i8, -1i8, -1i8]
    } else if ci == 69 {
        [1i8, 6i8, 5i8, 1i8, 2i8, 6i8, 3i8, 0i8, 8i8, -1i8, -1i8, -1i8, -1i8, -1i8, -1i8, -1i8]
    } else if ci == 70 {
        [9i8, 6i8, 5i8, 9i8, 0i8, 6i8, 0i8, 2i8, 6i8, -1i8, -1i8, -1i8, -1i8, -1i8, -1i8, -1i8]
    } else if ci == 71 {
        [5i8, 9i8, 8i8, 5i8, 8i8, 2i8, 5i8, 2i8, 6i8, 3i8, 2i8, 8i8, -1i8, -1i8, -1i8, -1i8]
    } else if ci == 72 {
        [2i8, 3i8, 11i8, 10i8, 6i8, 5i8, -1i8, -1i8, -1i8, -1i8, -1i8, -1i8, -1i8, -1i8, -1i8, -1i8]
    } else if ci == 73 {
        [11i8, 0i8, 8i8, 11i8, 2i8, 0i8, 10i8, 6i8, 5i8, -1i8, -1i8, -1i8, -1i8, -1i8, -1i8, -1i8]
    } else if ci == 74 {
        [0i8, 1i8, 9i8, 2i8, 3i8, 11i8, 5i8, 10i8, 6i8, -1i8, -1i8, -1i8, -1i8, -1i8, -1i8, -1i8]
    } else if ci == 75 {
        [5i8, 10i8, 6i8, 1i8, 9i8, 2i8, 9i8, 11i8, 2i8, 9i8, 8i8, 11i8, -1i8, -1i8, -1i8, -1i8]
    } else if ci == 76 {
        [6i8, 3i8, 11i8, 6i8, 5i8, 3i8, 5i8, 1i8, 3i8, -1i8, -1i8, -1i8, -1i8, -1i8, -1i8, -1i8]
    } else if ci == 77 {
        [0i8, 8i8, 11i8, 0i8, 11i8, 5i8, 0i8, 5i8, 1i8, 5i8, 11i8, 6i8, -1i8, -1i8, -1i8, -1i8]
    } else if ci == 78 {
        [3i8, 11i8, 6i8, 0i8, 3i8, 6i8, 0i8, 6i8, 5i8, 0i8, 5i8, 9i8, -1i8, -1i8, -1i8, -1i8]
    } else if ci == 79 {
        [6i8, 5i8, 9i8, 6i8, 9i8, 11i8, 11i8, 9i8, 8i8, -1i8, -1i8, -1i8, -1i8, -1i8, -1i8, -1i8]
    } else if ci == 80 {
        [5i8, 10i8, 6i8, 4i8, 7i8, 8i8, -1i8, -1i8, -1i8, -1i8, -1i8, -1i8, -1i8, -1i8, -1i8, -1i8]
    } else if ci == 81 {
        [4i8, 3i8, 0i8, 4i8, 7i8, 3i8, 6i8, 5i8, 10i8, -1i8, -1i8, -1i8, -1i8, -1i8, -1i8, -1i8]
    } else if ci == 82 {
        [1i8, 9i8, 0i8, 5i8, 10i8, 6i8, 8i8, 4i8, 7i8, -1i8, -1i8, -1i8, -1i8, -1i8, -1i8, -1i8]
    } else if ci == 83 {
        [10i8, 6i8, 5i8, 1i8, 9i8, 7i8, 1i8, 7i8, 3i8, 7i8, 9i8, 4i8, -1i8, -1i8, -1i8, -1i8]
    } else if ci == 84 {
        [6i8, 1i8, 2i8, 6i8, 5i8, 1i8, 4i8, 7i8, 8i8, -1i8, -1i8, -1i8, -1i8, -1i8, -1i8, -1i8]
    } else if ci == 85 {
        [1i8, 2i8, 5i8, 5i8, 2i8, 6i8, 3i8, 0i8, 4i8, 3i8, 4i8, 7i8, -1i8, -1i8, -1i8, -1i8]
    } else if ci == 86 {
        [8i8, 4i8, 7i8, 9i8, 0i8, 5i8, 0i8, 6i8, 5i8, 0i8, 2i8, 6i8, -1i8, -1i8, -1i8, -1i8]
    } else if ci == 87 {
        [7i8, 3i8, 9i8, 7i8, 9i8, 4i8, 3i8, 2i8, 9i8, 5i8, 9i8, 6i8, 2i8, 6i8, 9i8, -1i8]
    } else if ci == 88 {
        [3i8, 11i8, 2i8, 7i8, 8i8, 4i8, 10i8, 6i8, 5i8, -1i8, -1i8, -1i8, -1i8, -1i8, -1i8, -1i8]
    } else if ci == 89 {
        [5i8, 10i8, 6i8, 4i8, 7i8, 2i8, 4i8, 2i8, 0i8, 2i8, 7i8, 11i8, -1i8, -1i8, -1i8, -1i8]
    } else if ci == 90 {
        [0i8, 1i8, 9i8, 4i8, 7i8, 8i8, 2i8, 3i8, 11i8, 5i8, 10i8, 6i8, -1i8, -1i8, -1i8, -1i8]
    } else if ci == 91 {
        [9i8, 2i8, 1i8, 9i8, 11i8, 2i8, 9i8, 4i8, 11i8, 7i8, 11i8, 4i8, 5i8, 10i8, 6i8, -1i8]
    } else if ci == 92 {
        [8i8, 4i8, 7i8, 3i8, 11i8, 5i8, 3i8, 5i8, 1i8, 5i8, 11i8, 6i8, -1i8, -1i8, -1i8, -1i8]
    } else if ci == 93 {
        [5i8, 1i8, 11i8, 5i8, 11i8, 6i8, 1i8, 0i8, 11i8, 7i8, 11i8, 4i8, 0i8, 4i8, 11i8, -1i8]
    } else if ci == 94 {
        [0i8, 5i8, 9i8, 0i8, 6i8, 5i8, 0i8, 3i8, 6i8, 11i8, 6i8, 3i8, 8i8, 4i8, 7i8, -1i8]
    } else if ci == 95 {
        [6i8, 5i8, 9i8, 6i8, 9i8, 11i8, 4i8, 7i8, 9i8, 7i8, 11i8, 9i8, -1i8, -1i8, -1i8, -1i8]
    } else if ci == 96 {
        [10i8, 4i8, 9i8, 6i8, 4i8, 10i8, -1i8, -1i8, -1i8, -1i8, -1i8, -1i8, -1i8, -1i8, -1i8, -1i8]
    } else if ci == 97 {
        [4i8, 10i8, 6i8, 4i8, 9i8, 10i8, 0i8, 8i8, 3i8, -1i8, -1i8, -1i8, -1i8, -1i8, -1i8, -1i8]
    } else if ci == 98 {
        [10i8, 0i8, 1i8, 10i8, 6i8, 0i8, 6i8, 4i8, 0i8, -1i8, -1i8, -1i8, -1i8, -1i8, -1i8, -1i8]
    } else if ci == 99 {
        [8i8, 3i8, 1i8, 8i8, 1i8, 6i8, 8i8, 6i8, 4i8, 6i8, 1i8, 10i8, -1i8, -1i8, -1i8, -1i8]
    } else if ci == 100 {
        [1i8, 4i8, 9i8, 1i8, 2i8, 4i8, 2i8, 6i8, 4i8, -1i8, -1i8, -1i8, -1i8, -1i8, -1i8, -1i8]
    } else if ci == 101 {
        [3i8, 0i8, 8i8, 1i8, 2i8, 9i8, 2i8, 4i8, 9i8, 2i8, 6i8, 4i8, -1i8, -1i8, -1i8, -1i8]
    } else if ci == 102 {
        [0i8, 2i8, 4i8, 4i8, 2i8, 6i8, -1i8, -1i8, -1i8, -1i8, -1i8, -1i8, -1i8, -1i8, -1i8, -1i8]
    } else if ci == 103 {
        [8i8, 3i8, 2i8, 8i8, 2i8, 4i8, 4i8, 2i8, 6i8, -1i8, -1i8, -1i8, -1i8, -1i8, -1i8, -1i8]
    } else if ci == 104 {
        [10i8, 4i8, 9i8, 10i8, 6i8, 4i8, 11i8, 2i8, 3i8, -1i8, -1i8, -1i8, -1i8, -1i8, -1i8, -1i8]
    } else if ci == 105 {
        [0i8, 8i8, 2i8, 2i8, 8i8, 11i8, 4i8, 9i8, 10i8, 4i8, 10i8, 6i8, -1i8, -1i8, -1i8, -1i8]
    } else if ci == 106 {
        [3i8, 11i8, 2i8, 0i8, 1i8, 6i8, 0i8, 6i8, 4i8, 6i8, 1i8, 10i8, -1i8, -1i8, -1i8, -1i8]
    } else if ci == 107 {
        [6i8, 4i8, 1i8, 6i8, 1i8, 10i8, 4i8, 8i8, 1i8, 2i8, 1i8, 11i8, 8i8, 11i8, 1i8, -1i8]
    } else if ci == 108 {
        [9i8, 6i8, 4i8, 9i8, 3i8, 6i8, 9i8, 1i8, 3i8, 11i8, 6i8, 3i8, -1i8, -1i8, -1i8, -1i8]
    } else if ci == 109 {
        [8i8, 11i8, 1i8, 8i8, 1i8, 0i8, 11i8, 6i8, 1i8, 9i8, 1i8, 4i8, 6i8, 4i8, 1i8, -1i8]
    } else if ci == 110 {
        [3i8, 11i8, 6i8, 3i8, 6i8, 0i8, 0i8, 6i8, 4i8, -1i8, -1i8, -1i8, -1i8, -1i8, -1i8, -1i8]
    } else if ci == 111 {
        [6i8, 4i8, 8i8, 11i8, 6i8, 8i8, -1i8, -1i8, -1i8, -1i8, -1i8, -1i8, -1i8, -1i8, -1i8, -1i8]
    } else if ci == 112 {
        [7i8, 10i8, 6i8, 7i8, 8i8, 10i8, 8i8, 9i8, 10i8, -1i8, -1i8, -1i8, -1i8, -1i8, -1i8, -1i8]
    } else if ci == 113 {
        [0i8, 7i8, 3i8, 0i8, 10i8, 7i8, 0i8, 9i8, 10i8, 6i8, 7i8, 10i8, -1i8, -1i8, -1i8, -1i8]
    } else if ci == 114 {
        [10i8, 6i8, 7i8, 1i8, 10i8, 7i8, 1i8, 7i8, 8i8, 1i8, 8i8, 0i8, -1i8, -1i8, -1i8, -1i8]
    } else if ci == 115 {
        [10i8, 6i8, 7i8, 10i8, 7i8, 1i8, 1i8, 7i8, 3i8, -1i8, -1i8, -1i8, -1i8, -1i8, -1i8, -1i8]
    } else if ci == 116 {
        [1i8, 2i8, 6i8, 1i8, 6i8, 8i8, 1i8, 8i8, 9i8, 8i8, 6i8, 7i8, -1i8, -1i8, -1i8, -1i8]
    } else if ci == 117 {
        [2i8, 6i8, 9i8, 2i8, 9i8, 1i8, 6i8, 7i8, 9i8, 0i8, 9i8, 3i8, 7i8, 3i8, 9i8, -1i8]
    } else if ci == 118 {
        [7i8, 8i8, 0i8, 7i8, 0i8, 6i8, 6i8, 0i8, 2i8, -1i8, -1i8, -1i8, -1i8, -1i8, -1i8, -1i8]
    } else if ci == 119 {
        [7i8, 3i8, 2i8, 6i8, 7i8, 2i8, -1i8, -1i8, -1i8, -1i8, -1i8, -1i8, -1i8, -1i8, -1i8, -1i8]
    } else if ci == 120 {
        [2i8, 3i8, 11i8, 10i8, 6i8, 8i8, 10i8, 8i8, 9i8, 8i8, 6i8, 7i8, -1i8, -1i8, -1i8, -1i8]
    } else if ci == 121 {
        [2i8, 0i8, 7i8, 2i8, 7i8, 11i8, 0i8, 9i8, 7i8, 6i8, 7i8, 10i8, 9i8, 10i8, 7i8, -1i8]
    } else if ci == 122 {
        [1i8, 8i8, 0i8, 1i8, 7i8, 8i8, 1i8, 10i8, 7i8, 6i8, 7i8, 10i8, 2i8, 3i8, 11i8, -1i8]
    } else if ci == 123 {
        [11i8, 2i8, 1i8, 11i8, 1i8, 7i8, 10i8, 6i8, 1i8, 6i8, 7i8, 1i8, -1i8, -1i8, -1i8, -1i8]
    } else if ci == 124 {
        [8i8, 9i8, 6i8, 8i8, 6i8, 7i8, 9i8, 1i8, 6i8, 11i8, 6i8, 3i8, 1i8, 3i8, 6i8, -1i8]
    } else if ci == 125 {
        [0i8, 9i8, 1i8, 11i8, 6i8, 7i8, -1i8, -1i8, -1i8, -1i8, -1i8, -1i8, -1i8, -1i8, -1i8, -1i8]
    } else if ci == 126 {
        [7i8, 8i8, 0i8, 7i8, 0i8, 6i8, 3i8, 11i8, 0i8, 11i8, 6i8, 0i8, -1i8, -1i8, -1i8, -1i8]
    } else if ci == 127 {
        [7i8, 11i8, 6i8, -1i8, -1i8, -1i8, -1i8, -1i8, -1i8, -1i8, -1i8, -1i8, -1i8, -1i8, -1i8, -1i8]
    } else if ci == 128 {
        [7i8, 6i8, 11i8, -1i8, -1i8, -1i8, -1i8, -1i8, -1i8, -1i8, -1i8, -1i8, -1i8, -1i8, -1i8, -1i8]
    } else if ci == 129 {
        [3i8, 0i8, 8i8, 11i8, 7i8, 6i8, -1i8, -1i8, -1i8, -1i8, -1i8, -1i8, -1i8, -1i8, -1i8, -1i8]
    } else if ci == 130 {
        [0i8, 1i8, 9i8, 11i8, 7i8, 6i8, -1i8, -1i8, -1i8, -1i8, -1i8, -1i8, -1i8, -1i8, -1i8, -1i8]
    } else if ci == 131 {
        [8i8, 1i8, 9i8, 8i8, 3i8, 1i8, 11i8, 7i8, 6i8, -1i8, -1i8, -1i8, -1i8, -1i8, -1i8, -1i8]
    } else if ci == 132 {
        [10i8, 1i8, 2i8, 6i8, 11i8, 7i8, -1i8, -1i8, -1i8, -1i8, -1i8, -1i8, -1i8, -1i8, -1i8, -1i8]
    } else if ci == 133 {
        [1i8, 2i8, 10i8, 3i8, 0i8, 8i8, 6i8, 11i8, 7i8, -1i8, -1i8, -1i8, -1i8, -1i8, -1i8, -1i8]
    } else if ci == 134 {
        [2i8, 9i8, 0i8, 2i8, 10i8, 9i8, 6i8, 11i8, 7i8, -1i8, -1i8, -1i8, -1i8, -1i8, -1i8, -1i8]
    } else if ci == 135 {
        [6i8, 11i8, 7i8, 2i8, 10i8, 3i8, 10i8, 8i8, 3i8, 10i8, 9i8, 8i8, -1i8, -1i8, -1i8, -1i8]
    } else if ci == 136 {
        [7i8, 2i8, 3i8, 6i8, 2i8, 7i8, -1i8, -1i8, -1i8, -1i8, -1i8, -1i8, -1i8, -1i8, -1i8, -1i8]
    } else if ci == 137 {
        [7i8, 0i8, 8i8, 7i8, 6i8, 0i8, 6i8, 2i8, 0i8, -1i8, -1i8, -1i8, -1i8, -1i8, -1i8, -1i8]
    } else if ci == 138 {
        [2i8, 7i8, 6i8, 2i8, 3i8, 7i8, 0i8, 1i8, 9i8, -1i8, -1i8, -1i8, -1i8, -1i8, -1i8, -1i8]
    } else if ci == 139 {
        [1i8, 6i8, 2i8, 1i8, 8i8, 6i8, 1i8, 9i8, 8i8, 8i8, 7i8, 6i8, -1i8, -1i8, -1i8, -1i8]
    } else if ci == 140 {
        [10i8, 7i8, 6i8, 10i8, 1i8, 7i8, 1i8, 3i8, 7i8, -1i8, -1i8, -1i8, -1i8, -1i8, -1i8, -1i8]
    } else if ci == 141 {
        [10i8, 7i8, 6i8, 1i8, 7i8, 10i8, 1i8, 8i8, 7i8, 1i8, 0i8, 8i8, -1i8, -1i8, -1i8, -1i8]
    } else if ci == 142 {
        [0i8, 3i8, 7i8, 0i8, 7i8, 10i8, 0i8, 10i8, 9i8, 6i8, 10i8, 7i8, -1i8, -1i8, -1i8, -1i8]
    } else if ci == 143 {
        [7i8, 6i8, 10i8, 7i8, 10i8, 8i8, 8i8, 10i8, 9i8, -1i8, -1i8, -1i8, -1i8, -1i8, -1i8, -1i8]
    } else if ci == 144 {
        [6i8, 8i8, 4i8, 11i8, 8i8, 6i8, -1i8, -1i8, -1i8, -1i8, -1i8, -1i8, -1i8, -1i8, -1i8, -1i8]
    } else if ci == 145 {
        [3i8, 6i8, 11i8, 3i8, 0i8, 6i8, 0i8, 4i8, 6i8, -1i8, -1i8, -1i8, -1i8, -1i8, -1i8, -1i8]
    } else if ci == 146 {
        [8i8, 6i8, 11i8, 8i8, 4i8, 6i8, 9i8, 0i8, 1i8, -1i8, -1i8, -1i8, -1i8, -1i8, -1i8, -1i8]
    } else if ci == 147 {
        [9i8, 4i8, 6i8, 9i8, 6i8, 3i8, 9i8, 3i8, 1i8, 11i8, 3i8, 6i8, -1i8, -1i8, -1i8, -1i8]
    } else if ci == 148 {
        [6i8, 8i8, 4i8, 6i8, 11i8, 8i8, 2i8, 10i8, 1i8, -1i8, -1i8, -1i8, -1i8, -1i8, -1i8, -1i8]
    } else if ci == 149 {
        [1i8, 2i8, 10i8, 3i8, 0i8, 11i8, 0i8, 6i8, 11i8, 0i8, 4i8, 6i8, -1i8, -1i8, -1i8, -1i8]
    } else if ci == 150 {
        [4i8, 11i8, 8i8, 4i8, 6i8, 11i8, 0i8, 2i8, 9i8, 2i8, 10i8, 9i8, -1i8, -1i8, -1i8, -1i8]
    } else if ci == 151 {
        [10i8, 9i8, 3i8, 10i8, 3i8, 2i8, 9i8, 4i8, 3i8, 11i8, 3i8, 6i8, 4i8, 6i8, 3i8, -1i8]
    } else if ci == 152 {
        [8i8, 2i8, 3i8, 8i8, 4i8, 2i8, 4i8, 6i8, 2i8, -1i8, -1i8, -1i8, -1i8, -1i8, -1i8, -1i8]
    } else if ci == 153 {
        [0i8, 4i8, 2i8, 4i8, 6i8, 2i8, -1i8, -1i8, -1i8, -1i8, -1i8, -1i8, -1i8, -1i8, -1i8, -1i8]
    } else if ci == 154 {
        [1i8, 9i8, 0i8, 2i8, 3i8, 4i8, 2i8, 4i8, 6i8, 4i8, 3i8, 8i8, -1i8, -1i8, -1i8, -1i8]
    } else if ci == 155 {
        [1i8, 9i8, 4i8, 1i8, 4i8, 2i8, 2i8, 4i8, 6i8, -1i8, -1i8, -1i8, -1i8, -1i8, -1i8, -1i8]
    } else if ci == 156 {
        [8i8, 1i8, 3i8, 8i8, 6i8, 1i8, 8i8, 4i8, 6i8, 6i8, 10i8, 1i8, -1i8, -1i8, -1i8, -1i8]
    } else if ci == 157 {
        [10i8, 1i8, 0i8, 10i8, 0i8, 6i8, 6i8, 0i8, 4i8, -1i8, -1i8, -1i8, -1i8, -1i8, -1i8, -1i8]
    } else if ci == 158 {
        [4i8, 6i8, 3i8, 4i8, 3i8, 8i8, 6i8, 10i8, 3i8, 0i8, 3i8, 9i8, 10i8, 9i8, 3i8, -1i8]
    } else if ci == 159 {
        [10i8, 9i8, 4i8, 6i8, 10i8, 4i8, -1i8, -1i8, -1i8, -1i8, -1i8, -1i8, -1i8, -1i8, -1i8, -1i8]
    } else if ci == 160 {
        [4i8, 9i8, 5i8, 7i8, 6i8, 11i8, -1i8, -1i8, -1i8, -1i8, -1i8, -1i8, -1i8, -1i8, -1i8, -1i8]
    } else if ci == 161 {
        [0i8, 8i8, 3i8, 4i8, 9i8, 5i8, 11i8, 7i8, 6i8, -1i8, -1i8, -1i8, -1i8, -1i8, -1i8, -1i8]
    } else if ci == 162 {
        [5i8, 0i8, 1i8, 5i8, 4i8, 0i8, 7i8, 6i8, 11i8, -1i8, -1i8, -1i8, -1i8, -1i8, -1i8, -1i8]
    } else if ci == 163 {
        [11i8, 7i8, 6i8, 8i8, 3i8, 4i8, 3i8, 5i8, 4i8, 3i8, 1i8, 5i8, -1i8, -1i8, -1i8, -1i8]
    } else if ci == 164 {
        [9i8, 5i8, 4i8, 10i8, 1i8, 2i8, 7i8, 6i8, 11i8, -1i8, -1i8, -1i8, -1i8, -1i8, -1i8, -1i8]
    } else if ci == 165 {
        [6i8, 11i8, 7i8, 1i8, 2i8, 10i8, 0i8, 8i8, 3i8, 4i8, 9i8, 5i8, -1i8, -1i8, -1i8, -1i8]
    } else if ci == 166 {
        [7i8, 6i8, 11i8, 5i8, 4i8, 10i8, 4i8, 2i8, 10i8, 4i8, 0i8, 2i8, -1i8, -1i8, -1i8, -1i8]
    } else if ci == 167 {
        [3i8, 4i8, 8i8, 3i8, 5i8, 4i8, 3i8, 2i8, 5i8, 10i8, 5i8, 2i8, 11i8, 7i8, 6i8, -1i8]
    } else if ci == 168 {
        [7i8, 2i8, 3i8, 7i8, 6i8, 2i8, 5i8, 4i8, 9i8, -1i8, -1i8, -1i8, -1i8, -1i8, -1i8, -1i8]
    } else if ci == 169 {
        [9i8, 5i8, 4i8, 0i8, 8i8, 6i8, 0i8, 6i8, 2i8, 6i8, 8i8, 7i8, -1i8, -1i8, -1i8, -1i8]
    } else if ci == 170 {
        [3i8, 6i8, 2i8, 3i8, 7i8, 6i8, 1i8, 5i8, 0i8, 5i8, 4i8, 0i8, -1i8, -1i8, -1i8, -1i8]
    } else if ci == 171 {
        [6i8, 2i8, 8i8, 6i8, 8i8, 7i8, 2i8, 1i8, 8i8, 4i8, 8i8, 5i8, 1i8, 5i8, 8i8, -1i8]
    } else if ci == 172 {
        [9i8, 5i8, 4i8, 10i8, 1i8, 6i8, 1i8, 7i8, 6i8, 1i8, 3i8, 7i8, -1i8, -1i8, -1i8, -1i8]
    } else if ci == 173 {
        [1i8, 6i8, 10i8, 1i8, 7i8, 6i8, 1i8, 0i8, 7i8, 8i8, 7i8, 0i8, 9i8, 5i8, 4i8, -1i8]
    } else if ci == 174 {
        [4i8, 0i8, 10i8, 4i8, 10i8, 5i8, 0i8, 3i8, 10i8, 6i8, 10i8, 7i8, 3i8, 7i8, 10i8, -1i8]
    } else if ci == 175 {
        [7i8, 6i8, 10i8, 7i8, 10i8, 8i8, 5i8, 4i8, 10i8, 4i8, 8i8, 10i8, -1i8, -1i8, -1i8, -1i8]
    } else if ci == 176 {
        [6i8, 9i8, 5i8, 6i8, 11i8, 9i8, 11i8, 8i8, 9i8, -1i8, -1i8, -1i8, -1i8, -1i8, -1i8, -1i8]
    } else if ci == 177 {
        [3i8, 6i8, 11i8, 0i8, 6i8, 3i8, 0i8, 5i8, 6i8, 0i8, 9i8, 5i8, -1i8, -1i8, -1i8, -1i8]
    } else if ci == 178 {
        [0i8, 11i8, 8i8, 0i8, 5i8, 11i8, 0i8, 1i8, 5i8, 5i8, 6i8, 11i8, -1i8, -1i8, -1i8, -1i8]
    } else if ci == 179 {
        [6i8, 11i8, 3i8, 6i8, 3i8, 5i8, 5i8, 3i8, 1i8, -1i8, -1i8, -1i8, -1i8, -1i8, -1i8, -1i8]
    } else if ci == 180 {
        [1i8, 2i8, 10i8, 9i8, 5i8, 11i8, 9i8, 11i8, 8i8, 11i8, 5i8, 6i8, -1i8, -1i8, -1i8, -1i8]
    } else if ci == 181 {
        [0i8, 11i8, 3i8, 0i8, 6i8, 11i8, 0i8, 9i8, 6i8, 5i8, 6i8, 9i8, 1i8, 2i8, 10i8, -1i8]
    } else if ci == 182 {
        [11i8, 8i8, 5i8, 11i8, 5i8, 6i8, 8i8, 0i8, 5i8, 10i8, 5i8, 2i8, 0i8, 2i8, 5i8, -1i8]
    } else if ci == 183 {
        [6i8, 11i8, 3i8, 6i8, 3i8, 5i8, 2i8, 10i8, 3i8, 10i8, 5i8, 3i8, -1i8, -1i8, -1i8, -1i8]
    } else if ci == 184 {
        [5i8, 8i8, 9i8, 5i8, 2i8, 8i8, 5i8, 6i8, 2i8, 3i8, 8i8, 2i8, -1i8, -1i8, -1i8, -1i8]
    } else if ci == 185 {
        [9i8, 5i8, 6i8, 9i8, 6i8, 0i8, 0i8, 6i8, 2i8, -1i8, -1i8, -1i8, -1i8, -1i8, -1i8, -1i8]
    } else if ci == 186 {
        [1i8, 5i8, 8i8, 1i8, 8i8, 0i8, 5i8, 6i8, 8i8, 3i8, 8i8, 2i8, 6i8, 2i8, 8i8, -1i8]
    } else if ci == 187 {
        [1i8, 5i8, 6i8, 2i8, 1i8, 6i8, -1i8, -1i8, -1i8, -1i8, -1i8, -1i8, -1i8, -1i8, -1i8, -1i8]
    } else if ci == 188 {
        [1i8, 3i8, 6i8, 1i8, 6i8, 10i8, 3i8, 8i8, 6i8, 5i8, 6i8, 9i8, 8i8, 9i8, 6i8, -1i8]
    } else if ci == 189 {
        [10i8, 1i8, 0i8, 10i8, 0i8, 6i8, 9i8, 5i8, 0i8, 5i8, 6i8, 0i8, -1i8, -1i8, -1i8, -1i8]
    } else if ci == 190 {
        [0i8, 3i8, 8i8, 5i8, 6i8, 10i8, -1i8, -1i8, -1i8, -1i8, -1i8, -1i8, -1i8, -1i8, -1i8, -1i8]
    } else if ci == 191 {
        [10i8, 5i8, 6i8, -1i8, -1i8, -1i8, -1i8, -1i8, -1i8, -1i8, -1i8, -1i8, -1i8, -1i8, -1i8, -1i8]
    } else if ci == 192 {
        [11i8, 5i8, 10i8, 7i8, 5i8, 11i8, -1i8, -1i8, -1i8, -1i8, -1i8, -1i8, -1i8, -1i8, -1i8, -1i8]
    } else if ci == 193 {
        [11i8, 5i8, 10i8, 11i8, 7i8, 5i8, 8i8, 3i8, 0i8, -1i8, -1i8, -1i8, -1i8, -1i8, -1i8, -1i8]
    } else if ci == 194 {
        [5i8, 11i8, 7i8, 5i8, 10i8, 11i8, 1i8, 9i8, 0i8, -1i8, -1i8, -1i8, -1i8, -1i8, -1i8, -1i8]
    } else if ci == 195 {
        [10i8, 7i8, 5i8, 10i8, 11i8, 7i8, 9i8, 8i8, 1i8, 8i8, 3i8, 1i8, -1i8, -1i8, -1i8, -1i8]
    } else if ci == 196 {
        [11i8, 1i8, 2i8, 11i8, 7i8, 1i8, 7i8, 5i8, 1i8, -1i8, -1i8, -1i8, -1i8, -1i8, -1i8, -1i8]
    } else if ci == 197 {
        [0i8, 8i8, 3i8, 1i8, 2i8, 7i8, 1i8, 7i8, 5i8, 7i8, 2i8, 11i8, -1i8, -1i8, -1i8, -1i8]
    } else if ci == 198 {
        [9i8, 7i8, 5i8, 9i8, 2i8, 7i8, 9i8, 0i8, 2i8, 2i8, 11i8, 7i8, -1i8, -1i8, -1i8, -1i8]
    } else if ci == 199 {
        [7i8, 5i8, 2i8, 7i8, 2i8, 11i8, 5i8, 9i8, 2i8, 3i8, 2i8, 8i8, 9i8, 8i8, 2i8, -1i8]
    } else if ci == 200 {
        [2i8, 5i8, 10i8, 2i8, 3i8, 5i8, 3i8, 7i8, 5i8, -1i8, -1i8, -1i8, -1i8, -1i8, -1i8, -1i8]
    } else if ci == 201 {
        [8i8, 2i8, 0i8, 8i8, 5i8, 2i8, 8i8, 7i8, 5i8, 10i8, 2i8, 5i8, -1i8, -1i8, -1i8, -1i8]
    } else if ci == 202 {
        [9i8, 0i8, 1i8, 5i8, 10i8, 3i8, 5i8, 3i8, 7i8, 3i8, 10i8, 2i8, -1i8, -1i8, -1i8, -1i8]
    } else if ci == 203 {
        [9i8, 8i8, 2i8, 9i8, 2i8, 1i8, 8i8, 7i8, 2i8, 10i8, 2i8, 5i8, 7i8, 5i8, 2i8, -1i8]
    } else if ci == 204 {
        [1i8, 3i8, 5i8, 3i8, 7i8, 5i8, -1i8, -1i8, -1i8, -1i8, -1i8, -1i8, -1i8, -1i8, -1i8, -1i8]
    } else if ci == 205 {
        [0i8, 8i8, 7i8, 0i8, 7i8, 1i8, 1i8, 7i8, 5i8, -1i8, -1i8, -1i8, -1i8, -1i8, -1i8, -1i8]
    } else if ci == 206 {
        [9i8, 0i8, 3i8, 9i8, 3i8, 5i8, 5i8, 3i8, 7i8, -1i8, -1i8, -1i8, -1i8, -1i8, -1i8, -1i8]
    } else if ci == 207 {
        [9i8, 8i8, 7i8, 5i8, 9i8, 7i8, -1i8, -1i8, -1i8, -1i8, -1i8, -1i8, -1i8, -1i8, -1i8, -1i8]
    } else if ci == 208 {
        [5i8, 8i8, 4i8, 5i8, 10i8, 8i8, 10i8, 11i8, 8i8, -1i8, -1i8, -1i8, -1i8, -1i8, -1i8, -1i8]
    } else if ci == 209 {
        [5i8, 0i8, 4i8, 5i8, 11i8, 0i8, 5i8, 10i8, 11i8, 11i8, 3i8, 0i8, -1i8, -1i8, -1i8, -1i8]
    } else if ci == 210 {
        [0i8, 1i8, 9i8, 8i8, 4i8, 10i8, 8i8, 10i8, 11i8, 10i8, 4i8, 5i8, -1i8, -1i8, -1i8, -1i8]
    } else if ci == 211 {
        [10i8, 11i8, 4i8, 10i8, 4i8, 5i8, 11i8, 3i8, 4i8, 9i8, 4i8, 1i8, 3i8, 1i8, 4i8, -1i8]
    } else if ci == 212 {
        [2i8, 5i8, 1i8, 2i8, 8i8, 5i8, 2i8, 11i8, 8i8, 4i8, 5i8, 8i8, -1i8, -1i8, -1i8, -1i8]
    } else if ci == 213 {
        [0i8, 4i8, 11i8, 0i8, 11i8, 3i8, 4i8, 5i8, 11i8, 2i8, 11i8, 1i8, 5i8, 1i8, 11i8, -1i8]
    } else if ci == 214 {
        [0i8, 2i8, 5i8, 0i8, 5i8, 9i8, 2i8, 11i8, 5i8, 4i8, 5i8, 8i8, 11i8, 8i8, 5i8, -1i8]
    } else if ci == 215 {
        [9i8, 4i8, 5i8, 2i8, 11i8, 3i8, -1i8, -1i8, -1i8, -1i8, -1i8, -1i8, -1i8, -1i8, -1i8, -1i8]
    } else if ci == 216 {
        [2i8, 5i8, 10i8, 3i8, 5i8, 2i8, 3i8, 4i8, 5i8, 3i8, 8i8, 4i8, -1i8, -1i8, -1i8, -1i8]
    } else if ci == 217 {
        [5i8, 10i8, 2i8, 5i8, 2i8, 4i8, 4i8, 2i8, 0i8, -1i8, -1i8, -1i8, -1i8, -1i8, -1i8, -1i8]
    } else if ci == 218 {
        [3i8, 10i8, 2i8, 3i8, 5i8, 10i8, 3i8, 8i8, 5i8, 4i8, 5i8, 8i8, 0i8, 1i8, 9i8, -1i8]
    } else if ci == 219 {
        [5i8, 10i8, 2i8, 5i8, 2i8, 4i8, 1i8, 9i8, 2i8, 9i8, 4i8, 2i8, -1i8, -1i8, -1i8, -1i8]
    } else if ci == 220 {
        [8i8, 4i8, 5i8, 8i8, 5i8, 3i8, 3i8, 5i8, 1i8, -1i8, -1i8, -1i8, -1i8, -1i8, -1i8, -1i8]
    } else if ci == 221 {
        [0i8, 4i8, 5i8, 1i8, 0i8, 5i8, -1i8, -1i8, -1i8, -1i8, -1i8, -1i8, -1i8, -1i8, -1i8, -1i8]
    } else if ci == 222 {
        [8i8, 4i8, 5i8, 8i8, 5i8, 3i8, 9i8, 0i8, 5i8, 0i8, 3i8, 5i8, -1i8, -1i8, -1i8, -1i8]
    } else if ci == 223 {
        [9i8, 4i8, 5i8, -1i8, -1i8, -1i8, -1i8, -1i8, -1i8, -1i8, -1i8, -1i8, -1i8, -1i8, -1i8, -1i8]
    } else if ci == 224 {
        [4i8, 11i8, 7i8, 4i8, 9i8, 11i8, 9i8, 10i8, 11i8, -1i8, -1i8, -1i8, -1i8, -1i8, -1i8, -1i8]
    } else if ci == 225 {
        [0i8, 8i8, 3i8, 4i8, 9i8, 7i8, 9i8, 11i8, 7i8, 9i8, 10i8, 11i8, -1i8, -1i8, -1i8, -1i8]
    } else if ci == 226 {
        [1i8, 10i8, 11i8, 1i8, 11i8, 4i8, 1i8, 4i8, 0i8, 7i8, 4i8, 11i8, -1i8, -1i8, -1i8, -1i8]
    } else if ci == 227 {
        [3i8, 1i8, 4i8, 3i8, 4i8, 8i8, 1i8, 10i8, 4i8, 7i8, 4i8, 11i8, 10i8, 11i8, 4i8, -1i8]
    } else if ci == 228 {
        [4i8, 11i8, 7i8, 9i8, 11i8, 4i8, 9i8, 2i8, 11i8, 9i8, 1i8, 2i8, -1i8, -1i8, -1i8, -1i8]
    } else if ci == 229 {
        [9i8, 7i8, 4i8, 9i8, 11i8, 7i8, 9i8, 1i8, 11i8, 2i8, 11i8, 1i8, 0i8, 8i8, 3i8, -1i8]
    } else if ci == 230 {
        [11i8, 7i8, 4i8, 11i8, 4i8, 2i8, 2i8, 4i8, 0i8, -1i8, -1i8, -1i8, -1i8, -1i8, -1i8, -1i8]
    } else if ci == 231 {
        [11i8, 7i8, 4i8, 11i8, 4i8, 2i8, 8i8, 3i8, 4i8, 3i8, 2i8, 4i8, -1i8, -1i8, -1i8, -1i8]
    } else if ci == 232 {
        [2i8, 9i8, 10i8, 2i8, 7i8, 9i8, 2i8, 3i8, 7i8, 7i8, 4i8, 9i8, -1i8, -1i8, -1i8, -1i8]
    } else if ci == 233 {
        [9i8, 10i8, 7i8, 9i8, 7i8, 4i8, 10i8, 2i8, 7i8, 8i8, 7i8, 0i8, 2i8, 0i8, 7i8, -1i8]
    } else if ci == 234 {
        [3i8, 7i8, 10i8, 3i8, 10i8, 2i8, 7i8, 4i8, 10i8, 1i8, 10i8, 0i8, 4i8, 0i8, 10i8, -1i8]
    } else if ci == 235 {
        [1i8, 10i8, 2i8, 8i8, 7i8, 4i8, -1i8, -1i8, -1i8, -1i8, -1i8, -1i8, -1i8, -1i8, -1i8, -1i8]
    } else if ci == 236 {
        [4i8, 9i8, 1i8, 4i8, 1i8, 7i8, 7i8, 1i8, 3i8, -1i8, -1i8, -1i8, -1i8, -1i8, -1i8, -1i8]
    } else if ci == 237 {
        [4i8, 9i8, 1i8, 4i8, 1i8, 7i8, 0i8, 8i8, 1i8, 8i8, 7i8, 1i8, -1i8, -1i8, -1i8, -1i8]
    } else if ci == 238 {
        [4i8, 0i8, 3i8, 7i8, 4i8, 3i8, -1i8, -1i8, -1i8, -1i8, -1i8, -1i8, -1i8, -1i8, -1i8, -1i8]
    } else if ci == 239 {
        [4i8, 8i8, 7i8, -1i8, -1i8, -1i8, -1i8, -1i8, -1i8, -1i8, -1i8, -1i8, -1i8, -1i8, -1i8, -1i8]
    } else if ci == 240 {
        [9i8, 10i8, 8i8, 10i8, 11i8, 8i8, -1i8, -1i8, -1i8, -1i8, -1i8, -1i8, -1i8, -1i8, -1i8, -1i8]
    } else if ci == 241 {
        [3i8, 0i8, 9i8, 3i8, 9i8, 11i8, 11i8, 9i8, 10i8, -1i8, -1i8, -1i8, -1i8, -1i8, -1i8, -1i8]
    } else if ci == 242 {
        [0i8, 1i8, 10i8, 0i8, 10i8, 8i8, 8i8, 10i8, 11i8, -1i8, -1i8, -1i8, -1i8, -1i8, -1i8, -1i8]
    } else if ci == 243 {
        [3i8, 1i8, 10i8, 11i8, 3i8, 10i8, -1i8, -1i8, -1i8, -1i8, -1i8, -1i8, -1i8, -1i8, -1i8, -1i8]
    } else if ci == 244 {
        [1i8, 2i8, 11i8, 1i8, 11i8, 9i8, 9i8, 11i8, 8i8, -1i8, -1i8, -1i8, -1i8, -1i8, -1i8, -1i8]
    } else if ci == 245 {
        [3i8, 0i8, 9i8, 3i8, 9i8, 11i8, 1i8, 2i8, 9i8, 2i8, 11i8, 9i8, -1i8, -1i8, -1i8, -1i8]
    } else if ci == 246 {
        [0i8, 2i8, 11i8, 8i8, 0i8, 11i8, -1i8, -1i8, -1i8, -1i8, -1i8, -1i8, -1i8, -1i8, -1i8, -1i8]
    } else if ci == 247 {
        [3i8, 2i8, 11i8, -1i8, -1i8, -1i8, -1i8, -1i8, -1i8, -1i8, -1i8, -1i8, -1i8, -1i8, -1i8, -1i8]
    } else if ci == 248 {
        [2i8, 3i8, 8i8, 2i8, 8i8, 10i8, 10i8, 8i8, 9i8, -1i8, -1i8, -1i8, -1i8, -1i8, -1i8, -1i8]
    } else if ci == 249 {
        [9i8, 10i8, 2i8, 0i8, 9i8, 2i8, -1i8, -1i8, -1i8, -1i8, -1i8, -1i8, -1i8, -1i8, -1i8, -1i8]
    } else if ci == 250 {
        [2i8, 3i8, 8i8, 2i8, 8i8, 10i8, 0i8, 1i8, 8i8, 1i8, 10i8, 8i8, -1i8, -1i8, -1i8, -1i8]
    } else if ci == 251 {
        [1i8, 10i8, 2i8, -1i8, -1i8, -1i8, -1i8, -1i8, -1i8, -1i8, -1i8, -1i8, -1i8, -1i8, -1i8, -1i8]
    } else if ci == 252 {
        [1i8, 3i8, 8i8, 9i8, 1i8, 8i8, -1i8, -1i8, -1i8, -1i8, -1i8, -1i8, -1i8, -1i8, -1i8, -1i8]
    } else if ci == 253 {
        [0i8, 9i8, 1i8, -1i8, -1i8, -1i8, -1i8, -1i8, -1i8, -1i8, -1i8, -1i8, -1i8, -1i8, -1i8, -1i8]
    } else if ci == 254 {
        [0i8, 3i8, 8i8, -1i8, -1i8, -1i8, -1i8, -1i8, -1i8, -1i8, -1i8, -1i8, -1i8, -1i8, -1i8, -1i8]
    } else {
        [-1i8, -1i8, -1i8, -1i8, -1i8, -1i8, -1i8, -1i8, -1i8, -1i8, -1i8, -1i8, -1i8, -1i8, -1i8, -1i8]
    }
}

/// Offset of cube corner `i` (below 8) from the cube's low corner.
pub fn corner_offset(i: usize) -> (r: Vec3i)
    requires
        i < 8,
    ensures
        r == spec_corner_offset(i as int),
{
    match i {
        0 => Vec3i::new(0, 0, 0),
        1 => Vec3i::new(1, 0, 0),
        2 => Vec3i::new(1, 1, 0),
        3 => Vec3i::new(0, 1, 0),
        4 => Vec3i::new(0, 0, 1),
        5 => Vec3i::new(1, 0, 1),
        6 => Vec3i::new(1, 1, 1),
        _ => Vec3i::new(0, 1, 1),
    }
}

/// The two corners joined by cube edge `e` (below 12).
pub fn edge_corners(e: usize) -> (r: (usize, usize))
    requires
        e < 12,
    ensures
        r == spec_edge_corners(e as int),
        r.0 < 8 && r.1 < 8,
{
    if e < 4 {
        (e, (e + 1) % 4)
    } else if e < 8 {
        (e, 4 + (e - 3) % 4)
    } else {
        (e - 8, e - 4)
    }
}

/// The triangulation of corner pattern `cube_index`: up to five triangles, as
/// triples of edge numbers, ended by -1.
pub fn triangle_row(cube_index: u8) -> (r: [i8; 16])
    ensures
        r == spec_triangle_row(cube_index),
{
    match cube_index {
        0 => [-1, -1, -1, -1, -1, -1, -1, -1, -1, -1, -1, -1, -1, -1, -1, -1],
        1 => [0, 8, 3, -1, -1, -1, -1, -1, -1, -1, -1, -1, -1, -1, -1, -1],
        2 => [0, 1, 9, -1, -1, -1, -1, -1, -1, -1, -1, -1, -1, -1, -1, -1],
        3 => [1, 8, 3, 9, 8, 1, -1, -1, -1, -1, -1, -1, -1, -1, -1, -1],
        4 => [1, 2, 10, -1, -1, -1, -1, -1, -1, -1, -1, -1, -1, -1, -1, -1],
        5 => [0, 8, 3, 1, 2, 10, -1, -1, -1, -1, -1, -1, -1, -1, -1, -1],
        6 => [9, 2, 10, 0, 2, 9, -1, -1, -1, -1, -1, -1, -1, -1, -1, -1],
        7 => [2, 8, 3, 2, 10, 8, 10, 9, 8, -1, -1, -1, -1, -1, -1, -1],
        8 => [3, 11, 2, -1, -1, -1, -1, -1, -1, -1, -1, -1, -1, -1, -1, -1],
        9 => [0, 11, 2, 8, 11, 0, -1, -1, -1, -1, -1, -1, -1, -1, -1, -1],
        10 => [1, 9, 0, 2, 3, 11, -1, -1, -1, -1, -1, -1, -1, -1, -1, -1],
        11 => [1, 11, 2, 1, 9, 11, 9, 8, 11, -1, -1, -1, -1, -1, -1, -1],
        12 => [3, 10, 1, 11, 10, 3, -1, -1, -1, -1, -1, -1, -1, -1, -1, -1],
        13 => [0, 10, 1, 0, 8, 10, 8, 11, 10, -1, -1, -1, -1, -1, -1, -1],
        14 => [3, 9, 0, 3, 11, 9, 11, 10, 9, -1, -1, -1, -1, -1, -1, -1],
        15 => [9, 8, 10, 10, 8, 11, -1, -1, -1, -1, -1, -1, -1, -1, -1, -1],
        16 => [4, 7, 8, -1, -1, -1, -1, -1, -1, -1, -1, -1, -1, -1, -1, -1],
        17 => [4, 3, 0, 7, 3, 4, -1, -1, -1, -1, -1, -1, -1, -1, -1, -1],
        18 => [0, 1, 9, 8, 4, 7, -1, -1, -1, -1, -1, -1, -1, -1, -1, -1],
        19 => [4, 1, 9, 4, 7, 1, 7, 3, 1, -1, -1, -1, -1, -1, -1, -1],
        20 => [1, 2, 10, 8, 4, 7, -1, -1, -1, -1, -1, -1, -1, -1, -1, -1],
        21 => [3, 4, 7, 3, 0, 4, 1, 2, 10, -1, -1, -1, -1, -1, -1, -1],
        22 => [9, 2, 10, 9, 0, 2, 8, 4, 7, -1, -1, -1, -1, -1, -1, -1],
        23 => [2, 10, 9, 2, 9, 7, 2, 7, 3, 7, 9, 4, -1, -1, -1, -1],
        24 => [8, 4, 7, 3, 11, 2, -1, -1, -1, -1, -1, -1, -1, -1, -1, -1],
        25 => [11, 4, 7, 11, 2, 4, 2, 0, 4, -1, -1, -1, -1, -1, -1, -1],
        26 => [9, 0, 1, 8, 4, 7, 2, 3, 11, -1, -1, -1, -1, -1, -1, -1],
        27 => [4, 7, 11, 9, 4, 11, 9, 11, 2, 9, 2, 1, -1, -1, -1, -1],
        28 => [3, 10, 1, 3, 11, 10, 7, 8, 4, -1, -1, -1, -1, -1, -1, -1],
        29 => [1, 11, 10, 1, 4, 11, 1, 0, 4, 7, 11, 4, -1, -1, -1, -1],
        30 => [4, 7, 8, 9, 0, 11, 9, 11, 10, 11, 0, 3, -1, -1, -1, -1],
        31 => [4, 7, 11, 4, 11, 9, 9, 11, 10, -1, -1, -1, -1, -1, -1, -1],
        32 => [9, 5, 4, -1, -1, -1, -1, -1, -1, -1, -1, -1, -1, -1, -1, -1],
        33 => [9, 5, 4, 0, 8, 3, -1, -1, -1, -1, -1, -1, -1, -1, -1, -1],
        34 => [0, 5, 4, 1, 5, 0, -1, -1, -1, -1, -1, -1, -1, -1, -1, -1],
        35 => [8, 5, 4, 8, 3, 5, 3, 1, 5, -1, -1, -1, -1, -1, -1, -1],
        36 => [1, 2, 10, 9, 5, 4, -1, -1, -1, -1, -1, -1, -1, -1, -1, -1],
        37 => [3, 0, 8, 1, 2, 10, 4, 9, 5, -1, -1, -1, -1, -1, -1, -1],
        38 => [5, 2, 10, 5, 4, 2, 4, 0, 2, -1, -1, -1, -1, -1, -1, -1],
        39 => [2, 10, 5, 3, 2, 5, 3, 5, 4, 3, 4, 8, -1, -1, -1, -1],
        40 => [9, 5, 4, 2, 3, 11, -1, -1, -1, -1, -1, -1, -1, -1, -1, -1],
        41 => [0, 11, 2, 0, 8, 11, 4, 9, 5, -1, -1, -1, -1, -1, -1, -1],
        42 => [0, 5, 4, 0, 1, 5, 2, 3, 11, -1, -1, -1, -1, -1, -1, -1],
        43 => [2, 1, 5, 2, 5, 8, 2, 8, 11, 4, 8, 5, -1, -1, -1, -1],
        44 => [10, 3, 11, 10, 1, 3, 9, 5, 4, -1, -1, -1, -1, -1, -1, -1],
        45 => [4, 9, 5, 0, 8, 1, 8, 10, 1, 8, 11, 10, -1, -1, -1, -1],
        46 => [5, 4, 0, 5, 0, 11, 5, 11, 10, 11, 0, 3, -1, -1, -1, -1],
        47 => [5, 4, 8, 5, 8, 10, 10, 8, 11, -1, -1, -1, -1, -1, -1, -1],
        48 => [9, 7, 8, 5, 7, 9, -1, -1, -1, -1, -1, -1, -1, -1, -1, -1],
        49 => [9, 3, 0, 9, 5, 3, 5, 7, 3, -1, -1, -1, -1, -1, -1, -1],
        50 => [0, 7, 8, 0, 1, 7, 1, 5, 7, -1, -1, -1, -1, -1, -1, -1],
        51 => [1, 5, 3, 3, 5, 7, -1, -1, -1, -1, -1, -1, -1, -1, -1, -1],
        52 => [9, 7, 8, 9, 5, 7, 10, 1, 2, -1, -1, -1, -1, -1, -1, -1],
        53 => [10, 1, 2, 9, 5, 0, 5, 3, 0, 5, 7, 3, -1, -1, -1, -1],
        54 => [8, 0, 2, 8, 2, 5, 8, 5, 7, 10, 5, 2, -1, -1, -1, -1],
        55 => [2, 10, 5, 2, 5, 3, 3, 5, 7, -1, -1, -1, -1, -1, -1, -1],
        56 => [7, 9, 5, 7, 8, 9, 3, 11, 2, -1, -1, -1, -1, -1, -1, -1],
        57 => [9, 5, 7, 9, 7, 2, 9, 2, 0, 2, 7, 11, -1, -1, -1, -1],
        58 => [2, 3, 11, 0, 1, 8, 1, 7, 8, 1, 5, 7, -1, -1, -1, -1],
        59 => [11, 2, 1, 11, 1, 7, 7, 1, 5, -1, -1, -1, -1, -1, -1, -1],
        60 => [9, 5, 8, 8, 5, 7, 10, 1, 3, 10, 3, 11, -1, -1, -1, -1],
        61 => [5, 7, 0, 5, 0, 9, 7, 11, 0, 1, 0, 10, 11, 10, 0, -1],
        62 => [11, 10, 0, 11, 0, 3, 10, 5, 0, 8, 0, 7, 5, 7, 0, -1],
        63 => [11, 10, 5, 7, 11, 5, -1, -1, -1, -1, -1, -1, -1, -1, -1, -1],
        64 => [10, 6, 5, -1, -1, -1, -1, -1, -1, -1, -1, -1, -1, -1, -1, -1],
        65 => [0, 8, 3, 5, 10, 6, -1, -1, -1, -1, -1, -1, -1, -1, -1, -1],
        66 => [9, 0, 1, 5, 10, 6, -1, -1, -1, -1, -1, -1, -1, -1, -1, -1],
        67 => [1, 8, 3, 1, 9, 8, 5, 10, 6, -1, -1, -1, -1, -1, -1, -1],
        68 => [1, 6, 5, 2, 6, 1, -1, -1, -1, -1, -1, -1, -1, -1, -1, -1],
        69 => [1, 6, 5, 1, 2, 6, 3, 0, 8, -1, -1, -1, -1, -1, -1, -1],
        70 => [9, 6, 5, 9, 0, 6, 0, 2, 6, -1, -1, -1, -1, -1, -1, -1],
        71 => [5, 9, 8, 5, 8, 2, 5, 2, 6, 3, 2, 8, -1, -1, -1, -1],
        72 => [2, 3, 11, 10, 6, 5, -1, -1, -1, -1, -1, -1, -1, -1, -1, -1],
        73 => [11, 0, 8, 11, 2, 0, 10, 6, 5, -1, -1, -1, -1, -1, -1, -1],
        74 => [0, 1, 9, 2, 3, 11, 5, 10, 6, -1, -1, -1, -1, -1, -1, -1],
        75 => [5, 10, 6, 1, 9, 2, 9, 11, 2, 9, 8, 11, -1, -1, -1, -1],
        76 => [6, 3, 11, 6, 5, 3, 5, 1, 3, -1, -1, -1, -1, -1, -1, -1],
        77 => [0, 8, 11, 0, 11, 5, 0, 5, 1, 5, 11, 6, -1, -1, -1, -1],
        78 => [3, 11, 6, 0, 3, 6, 0, 6, 5, 0, 5, 9, -1, -1, -1, -1],
        79 => [6, 5, 9, 6, 9, 11, 11, 9, 8, -1, -1, -1, -1, -1, -1, -1],
        80 => [5, 10, 6, 4, 7, 8, -1, -1, -1, -1, -1, -1, -1, -1, -1, -1],
        81 => [4, 3, 0, 4, 7, 3, 6, 5, 10, -1, -1, -1, -1, -1, -1, -1],
        82 => [1, 9, 0, 5, 10, 6, 8, 4, 7, -1, -1, -1, -1, -1, -1, -1],
        83 => [10, 6, 5, 1, 9, 7, 1, 7, 3, 7, 9, 4, -1, -1, -1, -1],
        84 => [6, 1, 2, 6, 5, 1, 4, 7, 8, -1, -1, -1, -1, -1, -1, -1],
        85 => [1, 2, 5, 5, 2, 6, 3, 0, 4, 3, 4, 7, -1, -1, -1, -1],
        86 => [8, 4, 7, 9, 0, 5, 0, 6, 5, 0, 2, 6, -1, -1, -1, -1],
        87 => [7, 3, 9, 7, 9, 4, 3, 2, 9, 5, 9, 6, 2, 6, 9, -1],
        88 => [3, 11, 2, 7, 8, 4, 10, 6, 5, -1, -1, -1, -1, -1, -1, -1],
        89 => [5, 10, 6, 4, 7, 2, 4, 2, 0, 2, 7, 11, -1, -1, -1, -1],
        90 => [0, 1, 9, 4, 7, 8, 2, 3, 11, 5, 10, 6, -1, -1, -1, -1],
        91 => [9, 2, 1, 9, 11, 2, 9, 4, 11, 7, 11, 4, 5, 10, 6, -1],
        92 => [8, 4, 7, 3, 11, 5, 3, 5, 1, 5, 11, 6, -1, -1, -1, -1],
        93 => [5, 1, 11, 5, 11, 6, 1, 0, 11, 7, 11, 4, 0, 4, 11, -1],
        94 => [0, 5, 9, 0, 6, 5, 0, 3, 6, 11, 6, 3, 8, 4, 7, -1],
        95 => [6, 5, 9, 6, 9, 11, 4, 7, 9, 7, 11, 9, -1, -1, -1, -1],
        96 => [10, 4, 9, 6, 4, 10, -1, -1, -1, -1, -1, -1, -1, -1, -1, -1],
        97 => [4, 10, 6, 4, 9, 10, 0, 8, 3, -1, -1, -1, -1, -1, -1, -1],
        98 => [10, 0, 1, 10, 6, 0, 6, 4, 0, -1, -1, -1, -1, -1, -1, -1],
        99 => [8, 3, 1, 8, 1, 6, 8, 6, 4, 6, 1, 10, -1, -1, -1, -1],
        100 => [1, 4, 9, 1, 2, 4, 2, 6, 4, -1, -1, -1, -1, -1, -1, -1],
        101 => [3, 0, 8, 1, 2, 9, 2, 4, 9, 2, 6, 4, -1, -1, -1, -1],
        102 => [0, 2, 4, 4, 2, 6, -1, -1, -1, -1, -1, -1, -1, -1, -1, -1],
        103 => [8, 3, 2, 8, 2, 4, 4, 2, 6, -1, -1, -1, -1, -1, -1, -1],
        104 => [10, 4, 9, 10, 6, 4, 11, 2, 3, -1, -1, -1, -1, -1, -1, -1],
        105 => [0, 8, 2, 2, 8, 11, 4, 9, 10, 4, 10, 6, -1, -1, -1, -1],
        106 => [3, 11, 2, 0, 1, 6, 0, 6, 4, 6, 1, 10, -1, -1, -1, -1],
        107 => [6, 4, 1, 6, 1, 10, 4, 8, 1, 2, 1, 11, 8, 11, 1, -1],
        108 => [9, 6, 4, 9, 3, 6, 9, 1, 3, 11, 6, 3, -1, -1, -1, -1],
        109 => [8, 11, 1, 8, 1, 0, 11, 6, 1, 9, 1, 4, 6, 4, 1, -1],
        110 => [3, 11, 6, 3, 6, 0, 0, 6, 4, -1, -1, -1, -1, -1, -1, -1],
        111 => [6, 4, 8, 11, 6, 8, -1, -1, -1, -1, -1, -1, -1, -1, -1, -1],
        112 => [7, 10, 6, 7, 8, 10, 8, 9, 10, -1, -1, -1, -1, -1, -1, -1],
        113 => [0, 7, 3, 0, 10, 7, 0, 9, 10, 6, 7, 10, -1, -1, -1, -1],
        114 => [10, 6, 7, 1, 10, 7, 1, 7, 8, 1, 8, 0, -1, -1, -1, -1],
        115 => [10, 6, 7, 10, 7, 1, 1, 7, 3, -1, -1, -1, -1, -1, -1, -1],
        116 => [1, 2, 6, 1, 6, 8, 1, 8, 9, 8, 6, 7, -1, -1, -1, -1],
        117 => [2, 6, 9, 2, 9, 1, 6, 7, 9, 0, 9, 3, 7, 3, 9, -1],
        118 => [7, 8, 0, 7, 0, 6, 6, 0, 2, -1, -1, -1, -1, -1, -1, -1],
        119 => [7, 3, 2, 6, 7, 2, -1, -1, -1, -1, -1, -1, -1, -1, -1, -1],
        120 => [2, 3, 11, 10, 6, 8, 10, 8, 9, 8, 6, 7, -1, -1, -1, -1],
        121 => [2, 0, 7, 2, 7, 11, 0, 9, 7, 6, 7, 10, 9, 10, 7, -1],
        122 => [1, 8, 0, 1, 7, 8, 1, 10, 7, 6, 7, 10, 2, 3, 11, -1],
        123 => [11, 2, 1, 11, 1, 7, 10, 6, 1, 6, 7, 1, -1, -1, -1, -1],
        124 => [8, 9, 6, 8, 6, 7, 9, 1, 6, 11, 6, 3, 1, 3, 6, -1],
        125 => [0, 9, 1, 11, 6, 7, -1, -1, -1, -1, -1, -1, -1, -1, -1, -1],
        126 => [7, 8, 0, 7, 0, 6, 3, 11, 0, 11, 6, 0, -1, -1, -1, -1],
        127 => [7, 11, 6, -1, -1, -1, -1, -1, -1, -1, -1, -1, -1, -1, -1, -1],
        128 => [7, 6, 11, -1, -1, -1, -1, -1, -1, -1, -1, -1, -1, -1, -1, -1],
        129 => [3, 0, 8, 11, 7, 6, -1, -1, -1, -1, -1, -1, -1, -1, -1, -1],
        130 => [0, 1, 9, 11, 7, 6, -1, -1, -1, -1, -1, -1, -1, -1, -1, -1],
        131 => [8, 1, 9, 8, 3, 1, 11, 7, 6, -1, -1, -1, -1, -1, -1, -1],
        132 => [10, 1, 2, 6, 11, 7, -1, -1, -1, -1, -1, -1, -1, -1, -1, -1],
        133 => [1, 2, 10, 3, 0, 8, 6, 11, 7, -1, -1, -1, -1, -1, -1, -1],
        134 => [2, 9, 0, 2, 10, 9, 6, 11, 7, -1, -1, -1, -1, -1, -1, -1],
        135 => [6, 11, 7, 2, 10, 3, 10, 8, 3, 10, 9, 8, -1, -1, -1, -1],
        136 => [7, 2, 3, 6, 2, 7, -1, -1, -1, -1, -1, -1, -1, -1, -1, -1],
        137 => [7, 0, 8, 7, 6, 0, 6, 2, 0, -1, -1, -1, -1, -1, -1, -1],
        138 => [2, 7, 6, 2, 3, 7, 0, 1, 9, -1, -1, -1, -1, -1, -1, -1],
        139 => [1, 6, 2, 1, 8, 6, 1, 9, 8, 8, 7, 6, -1, -1, -1, -1],
        140 => [10, 7, 6, 10, 1, 7, 1, 3, 7, -1, -1, -1, -1, -1, -1, -1],
        141 => [10, 7, 6, 1, 7, 10, 1, 8, 7, 1, 0, 8, -1, -1, -1, -1],
        142 => [0, 3, 7, 0, 7, 10, 0, 10, 9, 6, 10, 7, -1, -1, -1, -1],
        143 => [7, 6, 10, 7, 10, 8, 8, 10, 9, -1, -1, -1, -1, -1, -1, -1],
        144 => [6, 8, 4, 11, 8, 6, -1, -1, -1, -1, -1, -1, -1, -1, -1, -1],
        145 => [3, 6, 11, 3, 0, 6, 0, 4, 6, -1, -1, -1, -1, -1, -1, -1],
        146 => [8, 6, 11, 8, 4, 6, 9, 0, 1, -1, -1, -1, -1, -1, -1, -1],
        147 => [9, 4, 6, 9, 6, 3, 9, 3, 1, 11, 3, 6, -1, -1, -1, -1],
        148 => [6, 8, 4, 6, 11, 8, 2, 10, 1, -1, -1, -1, -1, -1, -1, -1],
        149 => [1, 2, 10, 3, 0, 11, 0, 6, 11, 0, 4, 6, -1, -1, -1, -1],
        150 => [4, 11, 8, 4, 6, 11, 0, 2, 9, 2, 10, 9, -1, -1, -1, -1],
        151 => [10, 9, 3, 10, 3, 2, 9, 4, 3, 11, 3, 6, 4, 6, 3, -1],
        152 => [8, 2, 3, 8, 4, 2, 4, 6, 2, -1, -1, -1, -1, -1, -1, -1],
        153 => [0, 4, 2, 4, 6, 2, -1, -1, -1, -1, -1, -1, -1, -1, -1, -1],
        154 => [1, 9, 0, 2, 3, 4, 2, 4, 6, 4, 3, 8, -1, -1, -1, -1],
        155 => [1, 9, 4, 1, 4, 2, 2, 4, 6, -1, -1, -1, -1, -1, -1, -1],
        156 => [8, 1, 3, 8, 6, 1, 8, 4, 6, 6, 10, 1, -1, -1, -1, -1],
        157 => [10, 1, 0, 10, 0, 6, 6, 0, 4, -1, -1, -1, -1, -1, -1, -1],
        158 => [4, 6, 3, 4, 3, 8, 6, 10, 3, 0, 3, 9, 10, 9, 3, -1],
        159 => [10, 9, 4, 6, 10, 4, -1, -1, -1, -1, -1, -1, -1, -1, -1, -1],
        160 => [4, 9, 5, 7, 6, 11, -1, -1, -1, -1, -1, -1, -1, -1, -1, -1],
        161 => [0, 8, 3, 4, 9, 5, 11, 7, 6, -1, -1, -1, -1, -1, -1, -1],
        162 => [5, 0, 1, 5, 4, 0, 7, 6, 11, -1, -1, -1, -1, -1, -1, -1],
        163 => [11, 7, 6, 8, 3, 4, 3, 5, 4, 3, 1, 5, -1, -1, -1, -1],
        164 => [9, 5, 4, 10, 1, 2, 7, 6, 11, -1, -1, -1, -1, -1, -1, -1],
        165 => [6, 11, 7, 1, 2, 10, 0, 8, 3, 4, 9, 5, -1, -1, -1, -1],
        166 => [7, 6, 11, 5, 4, 10, 4, 2, 10, 4, 0, 2, -1, -1, -1, -1],
        167 => [3, 4, 8, 3, 5, 4, 3, 2, 5, 10, 5, 2, 11, 7, 6, -1],
        168 => [7, 2, 3, 7, 6, 2, 5, 4, 9, -1, -1, -1, -1, -1, -1, -1],
        169 => [9, 5, 4, 0, 8, 6, 0, 6, 2, 6, 8, 7, -1, -1, -1, -1],
        170 => [3, 6, 2, 3, 7, 6, 1, 5, 0, 5, 4, 0, -1, -1, -1, -1],
        171 => [6, 2, 8, 6, 8, 7, 2, 1, 8, 4, 8, 5, 1, 5, 8, -1],
        172 => [9, 5, 4, 10, 1, 6, 1, 7, 6, 1, 3, 7, -1, -1, -1, -1],
        173 => [1, 6, 10, 1, 7, 6, 1, 0, 7, 8, 7, 0, 9, 5, 4, -1],
        174 => [4, 0, 10, 4, 10, 5, 0, 3, 10, 6, 10, 7, 3, 7, 10, -1],
        175 => [7, 6, 10, 7, 10, 8, 5, 4, 10, 4, 8, 10, -1, -1, -1, -1],
        176 => [6, 9, 5, 6, 11, 9, 11, 8, 9, -1, -1, -1, -1, -1, -1, -1],
        177 => [3, 6, 11, 0, 6, 3, 0, 5, 6, 0, 9, 5, -1, -1, -1, -1],
        178 => [0, 11, 8, 0, 5, 11, 0, 1, 5, 5, 6, 11, -1, -1, -1, -1],
        179 => [6, 11, 3, 6, 3, 5, 5, 3, 1, -1, -1, -1, -1, -1, -1, -1],
        180 => [1, 2, 10, 9, 5, 11, 9, 11, 8, 11, 5, 6, -1, -1, -1, -1],
        181 => [0, 11, 3, 0, 6, 11, 0, 9, 6, 5, 6, 9, 1, 2, 10, -1],
        182 => [11, 8, 5, 11, 5, 6, 8, 0, 5, 10, 5, 2, 0, 2, 5, -1],
        183 => [6, 11, 3, 6, 3, 5, 2, 10, 3, 10, 5, 3, -1, -1, -1, -1],
        184 => [5, 8, 9, 5, 2, 8, 5, 6, 2, 3, 8, 2, -1, -1, -1, -1],
        185 => [9, 5, 6, 9, 6, 0, 0, 6, 2, -1, -1, -1, -1, -1, -1, -1],
        186 => [1, 5, 8, 1, 8, 0, 5, 6, 8, 3, 8, 2, 6, 2, 8, -1],
        187 => [1, 5, 6, 2, 1, 6, -1, -1, -1, -1, -1, -1, -1, -1, -1, -1],
        188 => [1, 3, 6, 1, 6, 10, 3, 8, 6, 5, 6, 9, 8, 9, 6, -1],
        189 => [10, 1, 0, 10, 0, 6, 9, 5, 0, 5, 6, 0, -1, -1, -1, -1],
        190 => [0, 3, 8, 5, 6, 10, -1, -1, -1, -1, -1, -1, -1, -1, -1, -1],
        191 => [10, 5, 6, -1, -1, -1, -1, -1, -1, -1, -1, -1, -1, -1, -1, -1],
        192 => [11, 5, 10, 7, 5, 11, -1, -1, -1, -1, -1, -1, -1, -1, -1, -1],
        193 => [11, 5, 10, 11, 7, 5, 8, 3, 0, -1, -1, -1, -1, -1, -1, -1],
        194 => [5, 11, 7, 5, 10, 11, 1, 9, 0, -1, -1, -1, -1, -1, -1, -1],
        195 => [10, 7, 5, 10, 11, 7, 9, 8, 1, 8, 3, 1, -1, -1, -1, -1],
        196 => [11, 1, 2, 11, 7, 1, 7, 5, 1, -1, -1, -1, -1, -1, -1, -1],
        197 => [0, 8, 3, 1, 2, 7, 1, 7, 5, 7, 2, 11, -1, -1, -1, -1],
        198 => [9, 7, 5, 9, 2, 7, 9, 0, 2, 2, 11, 7, -1, -1, -1, -1],
        199 => [7, 5, 2, 7, 2, 11, 5, 9, 2, 3, 2, 8, 9, 8, 2, -1],
        200 => [2, 5, 10, 2, 3, 5, 3, 7, 5, -1, -1, -1, -1, -1, -1, -1],
        201 => [8, 2, 0, 8, 5, 2, 8, 7, 5, 10, 2, 5, -1, -1, -1, -1],
        202 => [9, 0, 1, 5, 10, 3, 5, 3, 7, 3, 10, 2, -1, -1, -1, -1],
        203 => [9, 8, 2, 9, 2, 1, 8, 7, 2, 10, 2, 5, 7, 5, 2, -1],
        204 => [1, 3, 5, 3, 7, 5, -1, -1, -1, -1, -1, -1, -1, -1, -1, -1],
        205 => [0, 8, 7, 0, 7, 1, 1, 7, 5, -1, -1, -1, -1, -1, -1, -1],
        206 => [9, 0, 3, 9, 3, 5, 5, 3, 7, -1, -1, -1, -1, -1, -1, -1],
        207 => [9, 8, 7, 5, 9, 7, -1, -1, -1, -1, -1, -1, -1, -1, -1, -1],
        208 => [5, 8, 4, 5, 10, 8, 10, 11, 8, -1, -1, -1, -1, -1, -1, -1],
        209 => [5, 0, 4, 5, 11, 0, 5, 10, 11, 11, 3, 0, -1, -1, -1, -1],
        210 => [0, 1, 9, 8, 4, 10, 8, 10, 11, 10, 4, 5, -1, -1, -1, -1],
        211 => [10, 11, 4, 10, 4, 5, 11, 3, 4, 9, 4, 1, 3, 1, 4, -1],
        212 => [2, 5, 1, 2, 8, 5, 2, 11, 8, 4, 5, 8, -1, -1, -1, -1],
        213 => [0, 4, 11, 0, 11, 3, 4, 5, 11, 2, 11, 1, 5, 1, 11, -1],
        214 => [0, 2, 5, 0, 5, 9, 2, 11, 5, 4, 5, 8, 11, 8, 5, -1],
        215 => [9, 4, 5, 2, 11, 3, -1, -1, -1, -1, -1, -1, -1, -1, -1, -1],
        216 => [2, 5, 10, 3, 5, 2, 3, 4, 5, 3, 8, 4, -1, -1, -1, -1],
        217 => [5, 10, 2, 5, 2, 4, 4, 2, 0, -1, -1, -1, -1, -1, -1, -1],
        218 => [3, 10, 2, 3, 5, 10, 3, 8, 5, 4, 5, 8, 0, 1, 9, -1],
        219 => [5, 10, 2, 5, 2, 4, 1, 9, 2, 9, 4, 2, -1, -1, -1, -1],
        220 => [8, 4, 5, 8, 5, 3, 3, 5, 1, -1, -1, -1, -1, -1, -1, -1],
        221 => [0, 4, 5, 1, 0, 5, -1, -1, -1, -1, -1, -1, -1, -1, -1, -1],
        222 => [8, 4, 5, 8, 5, 3, 9, 0, 5, 0, 3, 5, -1, -1, -1, -1],
        223 => [9, 4, 5, -1, -1, -1, -1, -1, -1, -1, -1, -1, -1, -1, -1, -1],
        224 => [4, 11, 7, 4, 9, 11, 9, 10, 11, -1, -1, -1, -1, -1, -1, -1],
        225 => [0, 8, 3, 4, 9, 7, 9, 11, 7, 9, 10, 11, -1, -1, -1, -1],
        226 => [1, 10, 11, 1, 11, 4, 1, 4, 0, 7, 4, 11, -1, -1, -1, -1],
        227 => [3, 1, 4, 3, 4, 8, 1, 10, 4, 7, 4, 11, 10, 11, 4, -1],
        228 => [4, 11, 7, 9, 11, 4, 9, 2, 11, 9, 1, 2, -1, -1, -1, -1],
        229 => [9, 7, 4, 9, 11, 7, 9, 1, 11, 2, 11, 1, 0, 8, 3, -1],
        230 => [11, 7, 4, 11, 4, 2, 2, 4, 0, -1, -1, -1, -1, -1, -1, -1],
        231 => [11, 7, 4, 11, 4, 2, 8, 3, 4, 3, 2, 4, -1, -1, -1, -1],
        232 => [2, 9, 10, 2, 7, 9, 2, 3, 7, 7, 4, 9, -1, -1, -1, -1],
        233 => [9, 10, 7, 9, 7, 4, 10, 2, 7, 8, 7, 0, 2, 0, 7, -1],
        234 => [3, 7, 10, 3, 10, 2, 7, 4, 10, 1, 10, 0, 4, 0, 10, -1],
        235 => [1, 10, 2, 8, 7, 4, -1, -1, -1, -1, -1, -1, -1, -1, -1, -1],
        236 => [4, 9, 1, 4, 1, 7, 7, 1, 3, -1, -1, -1, -1, -1, -1, -1],
        237 => [4, 9, 1, 4, 1, 7, 0, 8, 1, 8, 7, 1, -1, -1, -1, -1],
        238 => [4, 0, 3, 7, 4, 3, -1, -1, -1, -1, -1, -1, -1, -1, -1, -1],
        239 => [4, 8, 7, -1, -1, -1, -1, -1, -1, -1, -1, -1, -1, -1, -1, -1],
        240 => [9, 10, 8, 10, 11, 8, -1, -1, -1, -1, -1, -1, -1, -1, -1, -1],
        241 => [3, 0, 9, 3, 9, 11, 11, 9, 10, -1, -1, -1, -1, -1, -1, -1],
        242 => [0, 1, 10, 0, 10, 8, 8, 10, 11, -1, -1, -1, -1, -1, -1, -1],
        243 => [3, 1, 10, 11, 3, 10, -1, -1, -1, -1, -1, -1, -1, -1, -1, -1],
        244 => [1, 2, 11, 1, 11, 9, 9, 11, 8, -1, -1, -1, -1, -1, -1, -1],
        245 => [3, 0, 9, 3, 9, 11, 1, 2, 9, 2, 11, 9, -1, -1, -1, -1],
        246 => [0, 2, 11, 8, 0, 11, -1, -1, -1, -1, -1, -1, -1, -1, -1, -1],
        247 => [3, 2, 11, -1, -1, -1, -1, -1, -1, -1, -1, -1, -1, -1, -1, -1],
        248 => [2, 3, 8, 2, 8, 10, 10, 8, 9, -1, -1, -1, -1, -1, -1, -1],
        249 => [9, 10, 2, 0, 9, 2, -1, -1, -1, -1, -1, -1, -1, -1, -1, -1],
        250 => [2, 3, 8, 2, 8, 10, 0, 1, 8, 1, 10, 8, -1, -1, -1, -1],
        251 => [1, 10, 2, -1, -1, -1, -1, -1, -1, -1, -1, -1, -1, -1, -1, -1],
        252 => [1, 3, 8, 9, 1, 8, -1, -1, -1, -1, -1, -1, -1, -1, -1, -1],
        253 => [0, 9, 1, -1, -1, -1, -1, -1, -1, -1, -1, -1, -1, -1, -1, -1],
        254 => [0, 3, 8, -1, -1, -1, -1, -1, -1, -1, -1, -1, -1, -1, -1, -1],
        _ => [-1, -1, -1, -1, -1, -1, -1, -1, -1, -1, -1, -1, -1, -1, -1, -1],
    }
}

} // verus!
