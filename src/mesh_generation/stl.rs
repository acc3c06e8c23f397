//! Byte layout of binary STL: an 80-byte header, a little-endian triangle
//! count, then 50 bytes per triangle (48 bytes of normal and vertices, and a
//! zero attribute count). The 48 bytes of each triangle come encoded already.

use vstd::prelude::*;

verus! {

/// The label at the start of the header: `yanvox_mesh_binary_export`.
pub open spec fn stl_label() -> Seq<u8> {
    seq![
        121u8, 97, 110, 118, 111, 120, 95, 109, 101, 115, 104, 95, 98, 105, 110, 97, 114, 121, 95,
        101, 120, 112, 111, 114, 116,
    ]
}

/// Byte `k` (0 to 3) of `n` in little-endian order.
pub open spec fn le_byte(n: u32, k: int) -> u8 {
    if k == 0 {
        (n % 256) as u8
    } else if k == 1 {
        ((n / 256) % 256) as u8
    } else if k == 2 {
        ((n / 65536) % 256) as u8
    } else {
        (n / 16777216) as u8
    }
}

/// The 84 bytes that open a binary STL file holding `triangle_count` triangles.
pub fn binary_stl_header(triangle_count: u32) -> (r: Vec<u8>)
    ensures
        r@.len() == 84,
        forall|i: int| 0 <= i < 25 ==> #[trigger] r@[i] == stl_label()[i],
        forall|i: int| 25 <= i < 80 ==> #[trigger] r@[i] == 0,
        forall|k: int| 0 <= k < 4 ==> #[trigger] r@[80 + k] == le_byte(triangle_count, k),
{
    let label: [u8; 25] = [
        121, 97, 110, 118, 111, 120, 95, 109, 101, 115, 104, 95, 98, 105, 110, 97, 114, 121, 95, 101,
        120, 112, 111, 114, 116,
    ];
    let mut out: Vec<u8> = Vec::new();
    let mut i: usize = 0;
    while i < 80
        invariant
            i <= 80,
            out@.len() == i,
            label@ == stl_label(),
            forall|j: int| 0 <= j < i && j < 25 ==> #[trigger] out@[j] == stl_label()[j],
            forall|j: int| 25 <= j < i ==> #[trigger] out@[j] == 0,
        decreases 80 - i,
    {
        if i < 25 {
            out.push(label[i]);
        } else {
            out.push(0);
        }
        i = i + 1;
    }
    out.push((triangle_count % 256) as u8);
    out.push(((triangle_count / 256) % 256) as u8);
    out.push(((triangle_count / 65536) % 256) as u8);
    out.push((triangle_count / 16777216) as u8);
    proof {
        assert forall|k: int| 0 <= k < 4 implies #[trigger] out@[80 + k] == le_byte(triangle_count, k) by {
            if k == 3 {
                assert(triangle_count / 16777216 < 256);
            }
        }
    }
    out
}

/// A whole binary STL file: the header for `facets.len()` triangles, then each
/// triangle's 48 bytes followed by a zero attribute count.
pub fn binary_stl_bytes(facets: &Vec<[u8; 48]>) -> (r: Vec<u8>)
    requires
        facets@.len() <= u32::MAX,
    ensures
        r@.len() == 84 + 50 * facets@.len(),
        forall|i: int| 0 <= i < 25 ==> #[trigger] r@[i] == stl_label()[i],
        forall|i: int| 25 <= i < 80 ==> #[trigger] r@[i] == 0,
        forall|k: int| 0 <= k < 4 ==> #[trigger] r@[80 + k] == le_byte(facets@.len() as u32, k),
        forall|t: int, j: int|
            0 <= t < facets@.len() && 0 <= j < 48 ==> #[trigger] r@[84 + 50 * t + j]
                == #[trigger] facets@[t]@[j],
        forall|t: int| 0 <= t < facets@.len() ==> #[trigger] r@[84 + 50 * t + 48] == 0,
        forall|t: int| 0 <= t < facets@.len() ==> #[trigger] r@[84 + 50 * t + 49] == 0,
{
    let mut out = binary_stl_header(facets.len() as u32);
    let mut t: usize = 0;
    while t < facets.len()
        invariant
            t <= facets@.len() <= u32::MAX,
            out@.len() == 84 + 50 * t,
            forall|i: int| 0 <= i < 25 ==> #[trigger] out@[i] == stl_label()[i],
            forall|i: int| 25 <= i < 80 ==> #[trigger] out@[i] == 0,
            forall|k: int| 0 <= k < 4 ==> #[trigger] out@[80 + k] == le_byte(facets@.len() as u32, k),
            forall|u: int, j: int|
                0 <= u < t && 0 <= j < 48 ==> #[trigger] out@[84 + 50 * u + j] == #[trigger] facets@[u]@[j],
            forall|u: int| 0 <= u < t ==> #[trigger] out@[84 + 50 * u + 48] == 0,
            forall|u: int| 0 <= u < t ==> #[trigger] out@[84 + 50 * u + 49] == 0,
        decreases facets@.len() - t,
    {
        let facet = &facets[t];
        let ghost start = out@.len();
        let mut j: usize = 0;
        while j < 48
            invariant
                j <= 48,
                t < facets@.len(),
                start == 84 + 50 * t,
                out@.len() == start + j,
                *facet == facets@[t as int],
                forall|i: int| 0 <= i < 25 ==> #[trigger] out@[i] == stl_label()[i],
                forall|i: int| 25 <= i < 80 ==> #[trigger] out@[i] == 0,
                forall|k: int| 0 <= k < 4 ==> #[trigger] out@[80 + k] == le_byte(facets@.len() as u32, k),
                forall|u: int, jj: int|
                    0 <= u < t && 0 <= jj < 48 ==> #[trigger] out@[84 + 50 * u + jj] == #[trigger] facets@[u]@[jj],
                forall|u: int| 0 <= u < t ==> #[trigger] out@[84 + 50 * u + 48] == 0,
            forall|u: int| 0 <= u < t ==> #[trigger] out@[84 + 50 * u + 49] == 0,
                forall|jj: int| 0 <= jj < j ==> #[trigger] out@[start + jj] == facet@[jj],
            decreases 48 - j,
        {
            out.push(facet[j]);
            j = j + 1;
        }
        out.push(0);
        out.push(0);
        proof {
            assert forall|u: int, jj: int|
                0 <= u < t + 1 && 0 <= jj < 48 implies #[trigger] out@[84 + 50 * u + jj] == #[trigger] facets@[u]@[jj] by {
                if u == t {
                    assert(out@[start + jj] == facet@[jj]);
                }
            }
        }
        t = t + 1;
    }
    out
}

} // verus!
