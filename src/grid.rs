//! Coordinate arithmetic shared by the tree levels: block extents, snapping a
//! coordinate to the lower corner of its block, and dense slot numbering.

use vstd::prelude::*;
use vstd::arithmetic::power2::{pow2, lemma_pow2_unfold, lemma_pow2_pos, lemma_pow2_adds, lemma_pow2_strictly_increases, lemma2_to64};
use vstd::arithmetic::div_mod::{lemma_fundamental_div_mod, lemma_mod_multiples_vanish, lemma_fundamental_div_mod_converse};
use crate::math::Vec3i;

verus! {

/// Largest cumulative log2 a tree level may have; keeps every block extent,
/// and every dense index, within `i32`.
pub const MAX_LOG2_CUM: u32 = 10;

/// Voxels per axis in a block whose cumulative log2 is `l`.
pub open spec fn extent(l: nat) -> int {
    pow2(l) as int
}

/// The low `l` bits set.
pub open spec fn low_mask(l: nat) -> i32 {
    (pow2(l) - 1) as i32
}

/// `v` with its low `l` bits cleared: the lower corner of the block that holds `v`.
pub open spec fn snap(v: i32, l: nat) -> i32 {
    v & !low_mask(l)
}

/// The low `l` bits of `v`: its offset inside its block.
pub open spec fn local(v: i32, l: nat) -> i32 {
    v & low_mask(l)
}

/// Component-wise `snap`: the key of the block with cumulative log2 `l` holding `c`.
pub open spec fn key_of(c: Vec3i, l: nat) -> Vec3i {
    Vec3i { x: snap(c.x, l), y: snap(c.y, l), z: snap(c.z, l) }
}

/// Dense row-major numbering of a local position `(i, j, k)` in a cube of side `s`.
pub open spec fn encode(i: int, j: int, k: int, s: int) -> int {
    i + j * s + k * s * s
}

/// Whether the half-open block `[lo, lo + extent(l))` can be written with `i32` corners.
pub open spec fn block_fits(lo: Vec3i, l: nat) -> bool {
    &&& lo.x + extent(l) <= i32::MAX
    &&& lo.y + extent(l) <= i32::MAX
    &&& lo.z + extent(l) <= i32::MAX
}

/// Whether `c` lies in the half-open block `[lo, lo + extent(l))`.
pub open spec fn in_block(c: Vec3i, lo: Vec3i, l: nat) -> bool {
    &&& lo.x <= c.x < lo.x + extent(l)
    &&& lo.y <= c.y < lo.y + extent(l)
    &&& lo.z <= c.z < lo.z + extent(l)
}

proof fn lemma_mask_step(m: i32)
    by (bit_vector)
    requires
        0 <= m < 0x2000_0000,
        m & ((m + 1) as i32) == 0,
    ensures
        ((m * 2 + 1) as i32) & ((m * 2 + 2) as i32) == 0,
{
}

/// The mask of `l` bits is `2^l - 1`, a run of ones.
pub proof fn lemma_low_mask(l: nat)
    requires
        l <= 30,
    ensures
        1 <= pow2(l) <= 0x4000_0000,
        low_mask(l) as int == pow2(l) - 1,
        low_mask(l) >= 0,
        low_mask(l) & ((low_mask(l) + 1) as i32) == 0,
    decreases l,
{
    lemma2_to64();
    lemma_pow2_pos(l);
    if l < 30 {
        lemma_pow2_strictly_increases(l, 30);
    }
    if l == 0 {
        assert(low_mask(0) == 0);
        assert(0i32 & 1i32 == 0) by (bit_vector);
    } else {
        lemma_low_mask((l - 1) as nat);
        lemma_pow2_unfold(l);
        let m = low_mask((l - 1) as nat);
        lemma_mask_step(m);
        assert(low_mask(l) == (m * 2 + 1) as i32);
    }
}

proof fn lemma_split_bits(x: i32, m: i32)
    by (bit_vector)
    requires
        m >= 0,
        m & ((m + 1) as i32) == 0,
    ensures
        (x & !m) <= x,
        (x & !m) <= (0x7fff_ffff - m) as i32,
        x <= ((x & !m) + m) as i32,
        (x - (x & !m)) as i32 == (x & m),
        0 <= (x & m) <= m,
        (x & !m) & m == 0,
{
}

/// `v` is its block corner plus its offset, and the offset is below the extent.
pub proof fn lemma_snap_local(v: i32, l: nat)
    requires
        l <= 30,
    ensures
        snap(v, l) <= v,
        v == snap(v, l) + local(v, l),
        0 <= local(v, l) < extent(l),
{
    lemma_low_mask(l);
    lemma_split_bits(v, low_mask(l));
}

proof fn lemma_snap_of_corner_bits(c: i32, o: i32, m: i32)
    by (bit_vector)
    requires
        m >= 0,
        m & ((m + 1) as i32) == 0,
        o & m == 0,
        o <= c,
        ((c - o) as i32) <= m,
        ((c - o) as i32) >= 0,
    ensures
        c & !m == o,
        c & m == (c - o) as i32,
{
}

/// A block corner has no low bits.
proof fn lemma_snap_aligned_bits(x: i32, m: i32)
    by (bit_vector)
    requires
        m >= 0,
    ensures
        (x & !m) & m == 0,
        (x & !m) & !m == (x & !m),
{
}

/// Snapping is idempotent, and the snapped value has no low bits.
pub proof fn lemma_snap_aligned(v: i32, l: nat)
    requires
        l <= 30,
    ensures
        snap(snap(v, l), l) == snap(v, l),
        local(snap(v, l), l) == 0,
{
    lemma_low_mask(l);
    lemma_snap_aligned_bits(v, low_mask(l));
}

/// Every point of an aligned block snaps to the block's corner.
pub proof fn lemma_snap_in_block(c: i32, o: i32, l: nat)
    requires
        l <= 30,
        local(o, l) == 0,
        o <= c < o + extent(l),
    ensures
        snap(c, l) == o,
        local(c, l) == c - o,
{
    lemma_low_mask(l);
    lemma_snap_of_corner_bits(c, o, low_mask(l));
}

proof fn lemma_nested_bits(v: i32, m1: i32, m2: i32)
    by (bit_vector)
    requires
        m1 >= 0,
        m2 >= 0,
        m1 & ((m1 + 1) as i32) == 0,
        m2 & ((m2 + 1) as i32) == 0,
        m1 <= m2,
    ensures
        (v & m2) & m1 == v & m1,
        (v & !m1) == ((v & !m2) + ((v & m2) & !m1)) as i32,
        0 <= (v & m2) & !m1 <= v & m2,
{
}

/// Snapping to a finer level inside a coarser block: the fine corner is the
/// coarse corner plus the snapped offset, and the fine offset is unchanged.
pub proof fn lemma_snap_nested(v: i32, lc: nat, l: nat)
    requires
        lc <= l <= 30,
    ensures
        snap(v, lc) == snap(v, l) + snap(local(v, l), lc),
        local(local(v, l), lc) == local(v, lc),
        0 <= snap(local(v, l), lc) <= local(v, l),
{
    lemma_low_mask(lc);
    lemma_low_mask(l);
    if lc < l {
        lemma_pow2_strictly_increases(lc, l);
    }
    lemma_nested_bits(v, low_mask(lc), low_mask(l));
    lemma_snap_local(v, l);
    lemma_snap_local(local(v, l), lc);
}

proof fn lemma_shift_keeps_low_bits(x: i32, m: i32)
    by (bit_vector)
    requires
        0 <= m < 0x4000_0000,
        m & ((m + 1) as i32) == 0,
    ensures
        (((x as i64) + 0x8000_0000i64) as i64) & (m as i64) == ((x & m) as i64),
        (((x as i64) + 0x8000_0000i64) as i64) >= 0,
{
}

proof fn lemma_cast_and_u64(w: i64, m: i64)
    by (bit_vector)
    ensures
        ((w as u64) & (m as u64)) == ((w & m) as u64),
{
}

/// The offset of `v` in its block is `v` modulo the extent (rounding towards
/// negative infinity), also for negative `v`.
pub proof fn lemma_local_is_mod(v: i32, l: nat)
    requires
        l <= 30,
    ensures
        local(v, l) == v as int % extent(l),
{
    lemma_low_mask(l);
    lemma2_to64();
    let m = low_mask(l);
    let s = extent(l);
    let w: i64 = (v as i64 + 0x8000_0000i64) as i64;
    lemma_shift_keeps_low_bits(v, m);
    assert(w as int == v as int + 0x8000_0000);
    lemma_cast_and_u64(w, m as i64);
    let wu = w as u64;
    vstd::bits::lemma_u64_low_bits_mask_is_mod(wu, l);
    assert(vstd::bits::low_bits_mask(l) == pow2(l) - 1) by {
        lemma_pow2_pos(l);
    }
    assert((m as i64) as u64 == vstd::bits::low_bits_mask(l) as u64);
    assert((local(v, l) as int) == (wu as int) % s);
    // 2^31 is a multiple of the extent
    lemma_pow2_adds(l, (31 - l) as nat);
    let t = pow2((31 - l) as nat) as int;
    assert(0x8000_0000 == s * t);
    lemma_mod_multiples_vanish(t, v as int, s);
}

/// For any `v`, snapping is rounding down (towards negative infinity) to a
/// multiple of the extent.
pub proof fn lemma_snap_floor(v: i32, l: nat)
    requires
        l <= 30,
    ensures
        snap(v, l) == (v as int / extent(l)) * extent(l),
        local(v, l) == v as int % extent(l),
        snap(v, l) <= v < snap(v, l) + extent(l),
{
    let s = extent(l);
    lemma_snap_local(v, l);
    lemma_local_is_mod(v, l);
    lemma_low_mask(l);
    lemma_fundamental_div_mod(v as int, s);
    vstd::arithmetic::mul::lemma_mul_is_commutative(s, v as int / s);
}

/// The key of the block with cumulative log2 `l` that holds `c` clears the
/// low `l` bits of each component; for negative components too, this rounds
/// down to the multiple of `2^l` at or below the component, so `c` lies in
/// the block `[key, key + 2^l)`.
pub proof fn law_key_snapping(c: Vec3i, l: nat)
    requires
        l <= 30,
    ensures
        key_of(c, l).x == c.x & !((pow2(l) - 1) as i32),
        key_of(c, l).y == c.y & !((pow2(l) - 1) as i32),
        key_of(c, l).z == c.z & !((pow2(l) - 1) as i32),
        key_of(c, l).x == (c.x as int / extent(l)) * extent(l),
        key_of(c, l).y == (c.y as int / extent(l)) * extent(l),
        key_of(c, l).z == (c.z as int / extent(l)) * extent(l),
        in_block(c, key_of(c, l), l),
{
    lemma_snap_floor(c.x, l);
    lemma_snap_floor(c.y, l);
    lemma_snap_floor(c.z, l);
}

/// Row-major numbering is a bijection between `[0, s)^3` and `[0, s^3)`.
pub proof fn lemma_encode_bounds(i: int, j: int, k: int, s: int)
    requires
        0 <= i < s,
        0 <= j < s,
        0 <= k < s,
    ensures
        0 <= encode(i, j, k, s) < s * s * s,
        encode(i, j, k, s) / (s * s) == k,
        (encode(i, j, k, s) % (s * s)) / s == j,
        encode(i, j, k, s) % s == i,
{
    let n = encode(i, j, k, s);
    let ij = i + j * s;
    assert(0 <= j * s <= (s - 1) * s) by (nonlinear_arith)
        requires
            0 <= j < s,
    ;
    assert(0 <= k * s * s <= (s - 1) * s * s) by (nonlinear_arith)
        requires
            0 <= k < s,
    ;
    assert(0 <= ij < s * s) by (nonlinear_arith)
        requires
            ij == i + j * s,
            0 <= i < s,
            0 <= j < s,
    ;
    assert(n == k * (s * s) + ij) by (nonlinear_arith)
        requires
            n == i + j * s + k * s * s,
            ij == i + j * s,
    ;
    assert(n < s * s * s) by (nonlinear_arith)
        requires
            n == k * (s * s) + ij,
            0 <= ij < s * s,
            0 <= k < s,
    ;
    lemma_fundamental_div_mod_converse(n, s * s, k, ij);
    lemma_fundamental_div_mod_converse(ij, s, j, i);
    assert(n == (k * s + j) * s + i) by (nonlinear_arith)
        requires
            n == i + j * s + k * s * s,
    ;
    lemma_fundamental_div_mod_converse(n, s, k * s + j, i);
}

/// Decoding a dense index gives a local position that encodes back to it.
pub proof fn lemma_decode(n: int, s: int)
    requires
        s > 0,
        0 <= n < s * s * s,
    ensures
        0 <= n % s < s,
        0 <= (n % (s * s)) / s < s,
        0 <= n / (s * s) < s,
        encode(n % s, (n % (s * s)) / s, n / (s * s), s) == n,
{
    let ss = s * s;
    assert(ss > 0) by (nonlinear_arith)
        requires
            s > 0,
            ss == s * s,
    ;
    lemma_fundamental_div_mod(n, ss);
    let k = n / ss;
    let r = n % ss;
    assert(0 <= k < s) by (nonlinear_arith)
        requires
            n == ss * k + r,
            0 <= r < ss,
            0 <= n < ss * s,
            ss > 0,
    ;
    lemma_fundamental_div_mod(r, s);
    let j = r / s;
    let i = r % s;
    assert(0 <= j < s) by (nonlinear_arith)
        requires
            r == s * j + i,
            0 <= i < s,
            0 <= r < s * s,
            s > 0,
    ;
    lemma_fundamental_div_mod(n, s);
    assert(n % s == i) by {
        assert(n == (k * s + j) * s + i) by (nonlinear_arith)
            requires
                n == ss * k + r,
                r == s * j + i,
                ss == s * s,
        ;
        lemma_fundamental_div_mod_converse(n, s, k * s + j, i);
    }
    assert(encode(i, j, k, s) == n) by (nonlinear_arith)
        requires
            n == ss * k + r,
            r == s * j + i,
            ss == s * s,
    ;
}

/// Two positions with the same numbering are the same position.
pub proof fn lemma_encode_injective(i1: int, j1: int, k1: int, i2: int, j2: int, k2: int, s: int)
    requires
        0 <= i1 < s,
        0 <= j1 < s,
        0 <= k1 < s,
        0 <= i2 < s,
        0 <= j2 < s,
        0 <= k2 < s,
        encode(i1, j1, k1, s) == encode(i2, j2, k2, s),
    ensures
        i1 == i2 && j1 == j2 && k1 == k2,
{
    lemma_encode_bounds(i1, j1, k1, s);
    lemma_encode_bounds(i2, j2, k2, s);
}

/// `2^e` as an `i32`, for `e` up to 30.
pub fn extent_of(e: u32) -> (r: i32)
    requires
        e <= 30,
    ensures
        r == extent(e as nat),
        1 <= r <= 0x4000_0000,
{
    proof {
        lemma_low_mask(e as nat);
        lemma2_to64();
    }
    let mut r: i32 = 1;
    let mut i: u32 = 0;
    while i < e
        invariant
            i <= e <= 30,
            r == pow2(i as nat),
        decreases e - i,
    {
        proof {
            lemma_pow2_unfold((i + 1) as nat);
            lemma_low_mask((i + 1) as nat);
        }
        r = r * 2;
        i = i + 1;
    }
    r
}

/// Lower corner of the block with cumulative log2 `l` that holds `v`.
pub fn snap_coord(v: i32, l: u32) -> (r: i32)
    requires
        l <= 30,
    ensures
        r == snap(v, l as nat),
{
    let size = extent_of(l);
    v & !(size - 1)
}

/// Offset of `v` inside its block with cumulative log2 `l`.
pub fn local_coord(v: i32, l: u32) -> (r: i32)
    requires
        l <= 30,
    ensures
        r == local(v, l as nat),
        0 <= r < extent(l as nat),
{
    proof {
        lemma_snap_local(v, l as nat);
    }
    let size = extent_of(l);
    v & (size - 1)
}

/// Component-wise `snap_coord`.
pub fn key_at(c: Vec3i, l: u32) -> (r: Vec3i)
    requires
        l <= 30,
    ensures
        r == key_of(c, l as nat),
{
    Vec3i { x: snap_coord(c.x, l), y: snap_coord(c.y, l), z: snap_coord(c.z, l) }
}

} // verus!
