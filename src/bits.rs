//! Bits of coordinates and keys, and the facts about them that the codecs use.

use vstd::prelude::*;

verus! {

/// Bit `i` of a coordinate (bits at 64 and above are clear).
pub open spec fn bit64(x: u64, i: int) -> bool {
    0 <= i < 64 && (x >> (i as u64)) & 1u64 == 1u64
}

/// Bit `i` of a key (bits at 128 and above are clear).
pub open spec fn bit128(x: u128, i: int) -> bool {
    0 <= i < 128 && (x >> (i as u128)) & 1u128 == 1u128
}

/// A coordinate holds no bit at position `b` or above.
pub open spec fn fits(x: u64, b: int) -> bool {
    b >= 64 || (x >> (b as u64)) == 0u64
}

/// A key holds no bit at position `n` or above.
pub open spec fn key_fits(x: u128, n: int) -> bool {
    n >= 128 || (x >> (n as u128)) == 0u128
}

/// The low `n` bits of a key, the others cleared.
pub open spec fn low_bits(x: u128, n: int) -> u128 {
    if n >= 128 {
        x
    } else {
        x & ((1u128 << (n as u128)) - 1u128) as u128
    }
}

/// Clearing the bits at `n` and above leaves a key that has none there unchanged.
pub proof fn lemma_low_bits_of_fitting(x: u128, n: int)
    requires
        0 <= n,
        key_fits(x, n),
    ensures
        low_bits(x, n) == x,
{
    if n < 128 {
        let m = n as u128;
        assert(x & ((1u128 << m) - 1u128) as u128 == x) by (bit_vector)
            requires
                m < 128,
                x >> m == 0u128,
        ;
    }
}

/// A key that fits in `n` bits has no bit at `n` or above.
pub proof fn lemma_key_fits_high_bits(x: u128, n: int, p: int)
    requires
        0 <= n <= p,
        key_fits(x, n),
    ensures
        !bit128(x, p),
{
    if p < 128 {
        let nn = n as u128;
        let pp = p as u128;
        assert((x >> pp) & 1u128 == 0u128) by (bit_vector)
            requires
                x >> nn == 0u128,
                nn <= pp,
                pp < 128,
        ;
    }
}

/// Clears the bits of a key at position `n` and above.
pub fn keep_low_bits(x: u128, n: u32) -> (r: u128)
    requires
        n <= 128,
    ensures
        r == low_bits(x, n as int),
        key_fits(r, n as int),
        key_fits(x, n as int) ==> r == x,
{
    if n >= 128 {
        x
    } else {
        let m: u128 = n as u128;
        assert(1u128 << m >= 1u128) by (bit_vector)
            requires
                m < 128,
        ;
        let r = x & ((1u128 << m) - 1u128) as u128;
        assert(r >> m == 0u128) by (bit_vector)
            requires
                m < 128,
                r == x & ((1u128 << m) - 1u128) as u128,
        ;
        assert(x >> m == 0u128 ==> r == x) by (bit_vector)
            requires
                m < 128,
                r == x & ((1u128 << m) - 1u128) as u128,
        ;
        r
    }
}

/// Setting bit `k` of a key changes bit `k` alone.
pub proof fn lemma_set_bit128(x: u128, k: u128, p: u128)
    requires
        k < 128,
        p < 128,
    ensures
        ((x | (1u128 << k)) >> p) & 1u128 == 1u128 <==> (p == k || (x >> p) & 1u128 == 1u128),
{
    assert(((x | (1u128 << k)) >> p) & 1u128 == 1u128 <==> (p == k || (x >> p) & 1u128
        == 1u128)) by (bit_vector)
        requires
            k < 128,
            p < 128,
    ;
}

/// Setting bit `k` of a coordinate changes bit `k` alone.
pub proof fn lemma_set_bit64(x: u64, k: u64, p: u64)
    requires
        k < 64,
        p < 64,
    ensures
        ((x | (1u64 << k)) >> p) & 1u64 == 1u64 <==> (p == k || (x >> p) & 1u64 == 1u64),
{
    assert(((x | (1u64 << k)) >> p) & 1u64 == 1u64 <==> (p == k || (x >> p) & 1u64 == 1u64))
        by (bit_vector)
        requires
            k < 64,
            p < 64,
    ;
}

/// Zero has no bit set.
pub proof fn lemma_zero_bits()
    ensures
        forall|p: int| !bit64(0u64, p),
        forall|p: int| !bit128(0u128, p),
{
    assert forall|p: int| !bit64(0u64, p) by {
        if 0 <= p < 64 {
            let q = p as u64;
            assert((0u64 >> q) & 1u64 == 0u64) by (bit_vector);
        }
    }
    assert forall|p: int| !bit128(0u128, p) by {
        if 0 <= p < 128 {
            let q = p as u128;
            assert((0u128 >> q) & 1u128 == 0u128) by (bit_vector);
        }
    }
}

/// A coordinate that fits in `b` bits has no bit at `b` or above.
pub proof fn lemma_fits_high_bits(x: u64, b: int, i: int)
    requires
        0 <= b,
        fits(x, b),
        b <= i,
    ensures
        !bit64(x, i),
{
    if i < 64 {
        let bb = b as u64;
        let ii = i as u64;
        assert((x >> ii) & 1u64 == 0u64) by (bit_vector)
            requires
                x >> bb == 0u64,
                bb <= ii,
                ii < 64,
        ;
    }
}

/// Coordinates that agree on bits `n` to 63 agree shifted right by `n`.
proof fn lemma_high_part_equal(x: u64, y: u64, n: u64)
    requires
        n <= 63,
        forall|i: int| 0 <= i < 64 ==> bit64(x, i) == bit64(y, i),
    ensures
        x >> n == y >> n,
    decreases 63 - n,
{
    assert(bit64(x, n as int) == bit64(y, n as int));
    if n == 63 {
        assert(x >> n == y >> n) by (bit_vector)
            requires
                n == 63,
                ((x >> n) & 1u64 == 1u64) == ((y >> n) & 1u64 == 1u64),
        ;
    } else {
        let m: u64 = (n + 1) as u64;
        lemma_high_part_equal(x, y, m);
        assert(x >> n == y >> n) by (bit_vector)
            requires
                n < 63,
                m == n + 1,
                x >> m == y >> m,
                ((x >> n) & 1u64 == 1u64) == ((y >> n) & 1u64 == 1u64),
        ;
    }
}

/// Two coordinates with the same bits are equal.
pub proof fn lemma_bits_equal(x: u64, y: u64)
    requires
        forall|i: int| 0 <= i < 64 ==> bit64(x, i) == bit64(y, i),
    ensures
        x == y,
{
    lemma_high_part_equal(x, y, 0);
    assert(x == y) by (bit_vector)
        requires
            x >> 0u64 == y >> 0u64,
    ;
}

/// Keys that agree on bits `n` to 127 agree shifted right by `n`.
proof fn lemma_high_part_equal128(x: u128, y: u128, n: u128)
    requires
        n <= 127,
        forall|i: int| 0 <= i < 128 ==> bit128(x, i) == bit128(y, i),
    ensures
        x >> n == y >> n,
    decreases 127 - n,
{
    assert(bit128(x, n as int) == bit128(y, n as int));
    if n == 127 {
        assert(x >> n == y >> n) by (bit_vector)
            requires
                n == 127,
                ((x >> n) & 1u128 == 1u128) == ((y >> n) & 1u128 == 1u128),
        ;
    } else {
        let m: u128 = (n + 1) as u128;
        lemma_high_part_equal128(x, y, m);
        assert(x >> n == y >> n) by (bit_vector)
            requires
                n < 127,
                m == n + 1,
                x >> m == y >> m,
                ((x >> n) & 1u128 == 1u128) == ((y >> n) & 1u128 == 1u128),
        ;
    }
}

/// Two keys with the same bits are equal.
pub proof fn lemma_key_bits_equal(x: u128, y: u128)
    requires
        forall|i: int| 0 <= i < 128 ==> bit128(x, i) == bit128(y, i),
    ensures
        x == y,
{
    lemma_high_part_equal128(x, y, 0);
    assert(x == y) by (bit_vector)
        requires
            x >> 0u128 == y >> 0u128,
    ;
}

} // verus!
