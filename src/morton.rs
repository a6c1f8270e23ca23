//! Morton (Z-order) keys: the bits of the coordinates interleaved,
//! dimension-minor and bit-major.

use vstd::prelude::*;

use crate::bits::{
    bit128, bit64, fits, key_fits, lemma_bits_equal, lemma_fits_high_bits, lemma_key_bits_equal,
    lemma_key_fits_high_bits, lemma_set_bit128, lemma_set_bit64, lemma_zero_bits,
};
use crate::width::{lemma_shape_bound, valid_shape};

verus! {

/// Every coordinate fits in `b` bits.
pub open spec fn all_fit(v: Seq<u64>, b: int) -> bool {
    forall|k: int| 0 <= k < v.len() ==> #[trigger] fits(v[k], b)
}

/// `key` is the Morton key of `v` at `b` bits per coordinate: bit `i * d + k`
/// of the key is bit `i` of coordinate `k`, and no bit at `b * d` or above is set.
pub open spec fn is_morton_key(key: u128, v: Seq<u64>, b: int) -> bool {
    let d = v.len() as int;
    &&& forall|i: int, k: int|
        0 <= i < b && 0 <= k < d ==> bit128(key, i * d + k) == #[trigger] bit64(v[k], i)
    &&& forall|p: int| b * d <= p ==> !#[trigger] bit128(key, p)
}

/// `r` is what Morton decoding reads out of `key` for `d` coordinates of `b`
/// bits: bit `i` of coordinate `k` is bit `i * d + k` of the key for `i < b`,
/// and clear above.
pub open spec fn is_morton_decoding(r: Seq<u64>, key: u128, b: int, d: int) -> bool {
    &&& r.len() == d
    &&& forall|k: int, i: int|
        0 <= k < d && 0 <= i < 64 ==> #[trigger] bit64(r[k], i) == (i < b && bit128(
            key,
            i * d + k,
        ))
}

/// Interleaves the bits of the coordinates, dimension-minor and bit-major:
/// bit `i` of coordinate `k` lands at bit `i * d + k` of the key.
pub fn morton_encode(values: &Vec<u64>, b: u32) -> (key: u128)
    requires
        valid_shape(b as int, values.len() as int),
        all_fit(values@, b as int),
    ensures
        is_morton_key(key, values@, b as int),
{
    let d: usize = values.len();
    let ghost v = values@;
    proof {
        lemma_shape_bound(b as int, d as int);
    }
    let mut key: u128 = 0;
    proof {
        lemma_zero_bits();
    }
    let mut i: u32 = 0;
    while i < b
        invariant
            valid_shape(b as int, d as int),
            b * d <= 128,
            0 < b <= 64,
            v == values@,
            d == v.len(),
            0 <= i <= b,
            forall|ii: int, k: int|
                0 <= ii < i && 0 <= k < d ==> bit128(key, ii * d + k) == #[trigger] bit64(v[k], ii),
            forall|p: int| i * d <= p ==> !#[trigger] bit128(key, p),
        decreases b - i,
    {
        let mut j: usize = 0;
        while j < d
            invariant
                valid_shape(b as int, d as int),
                b * d <= 128,
                0 < b <= 64,
                v == values@,
                d == v.len(),
                0 <= i < b,
                0 <= j <= d,
                forall|ii: int, k: int|
                    0 <= ii < i && 0 <= k < d ==> bit128(key, ii * d + k) == #[trigger] bit64(
                        v[k],
                        ii,
                    ),
                forall|k: int| 0 <= k < j ==> bit128(key, i * d + k) == #[trigger] bit64(v[k], i as int),
                forall|p: int| i * d + j <= p ==> !#[trigger] bit128(key, p),
            decreases d - j,
        {
            assert(i * d + j < b * d && b * d <= 128) by (nonlinear_arith)
                requires
                    i < b,
                    j < d,
                    b * d <= 128,
            ;
            let pos: u32 = i * (d as u32) + (j as u32);
            let ghost old_key = key;
            if (values[j] >> (i as u64)) & 1u64 == 1u64 {
                key = key | (1u128 << pos);
                assert forall|p: int| 0 <= p < 128 implies bit128(key, p) == (p == pos || bit128(old_key, p)) by {
                    lemma_set_bit128(old_key, pos as u128, p as u128);
                }
                assert forall|p: int| p >= 128 implies !bit128(key, p) by {}
            }
            assert forall|ii: int, k: int|
                0 <= ii < i && 0 <= k < d implies bit128(key, ii * d + k) == #[trigger] bit64(v[k], ii) by {
                assert(ii * d + k < i * d) by (nonlinear_arith)
                    requires
                        ii < i,
                        k < d,
                ;
                assert(0 <= ii * d + k) by (nonlinear_arith)
                    requires
                        0 <= ii,
                        0 <= k,
                        0 <= d,
                ;
            }
            j = j + 1;
        }
        i = i + 1;
        assert(i * d == (i - 1) * d + d) by (nonlinear_arith);
    }
    key
}

/// Reads coordinate `k` of `d` back out of a Morton key: its bit `i` is bit
/// `i * d + k` of the key, for `i < b`.
pub fn morton_decode(key: u128, b: u32, d: usize) -> (r: Vec<u64>)
    requires
        valid_shape(b as int, d as int),
    ensures
        is_morton_decoding(r@, key, b as int, d as int),
{
    let mut r: Vec<u64> = Vec::new();
    proof {
        lemma_shape_bound(b as int, d as int);
        lemma_zero_bits();
    }
    let mut k: usize = 0;
    while k < d
        invariant
            valid_shape(b as int, d as int),
            b * d <= 128,
            0 < b <= 64,
            0 <= k <= d,
            r.len() == k,
            forall|kk: int, i: int|
                0 <= kk < k && 0 <= i < 64 ==> #[trigger] bit64(r[kk], i) == (i < b && bit128(
                    key,
                    i * d + kk,
                )),
        decreases d - k,
    {
        let mut value: u64 = 0;
        proof {
            lemma_zero_bits();
        }
        let mut i: u32 = 0;
        while i < b
            invariant
                valid_shape(b as int, d as int),
                b * d <= 128,
                0 < b <= 64,
                0 <= k < d,
                0 <= i <= b,
                forall|ii: int|
                    0 <= ii < 64 ==> #[trigger] bit64(value, ii) == (ii < i && bit128(
                        key,
                        ii * d + k,
                    )),
            decreases b - i,
        {
            assert(i * d + k < b * d && b * d <= 128) by (nonlinear_arith)
                requires
                    i < b,
                    k < d,
                    b * d <= 128,
            ;
            let pos: u32 = i * (d as u32) + (k as u32);
            let ghost old_value = value;
            if (key >> (pos as u128)) & 1u128 == 1u128 {
                value = value | (1u64 << (i as u64));
                assert forall|p: int| 0 <= p < 64 implies bit64(value, p) == (p == i || bit64(old_value, p)) by {
                    lemma_set_bit64(old_value, i as u64, p as u64);
                }
            }
            i = i + 1;
        }
        r.push(value);
        k = k + 1;
    }
    r
}

/// Morton decoding gives back the coordinates that were encoded.
pub proof fn lemma_morton_round_trip(v: Seq<u64>, b: int, key: u128, r: Seq<u64>)
    requires
        valid_shape(b, v.len() as int),
        all_fit(v, b),
        is_morton_key(key, v, b),
        is_morton_decoding(r, key, b, v.len() as int),
    ensures
        r == v,
{
    let d = v.len() as int;
    assert forall|k: int| 0 <= k < d implies r[k] == v[k] by {
        assert forall|i: int| 0 <= i < 64 implies bit64(r[k], i) == bit64(v[k], i) by {
            if i >= b {
                assert(fits(v[k], b));
                lemma_fits_high_bits(v[k], b, i);
            }
        }
        lemma_bits_equal(r[k], v[k]);
    }
    assert(r =~= v);
}

/// A position below `b * d` splits into a bit level below `b` and a dimension below `d`.
proof fn lemma_split_position(p: int, b: int, d: int)
    requires
        0 < d,
        0 <= p < b * d,
    ensures
        0 <= p / d < b,
        0 <= p % d < d,
        p == (p / d) * d + p % d,
{
    vstd::arithmetic::div_mod::lemma_fundamental_div_mod(p, d);
    vstd::arithmetic::div_mod::lemma_mod_bound(p, d);
    vstd::arithmetic::div_mod::lemma_div_pos_is_pos(p, d);
    let q = p / d;
    let r = p % d;
    assert(q < b) by (nonlinear_arith)
        requires
            p == d * q + r,
            0 <= r < d,
            p < b * d,
            0 < d,
    ;
    assert(q * d == d * q) by (nonlinear_arith);
}

/// A tuple has one Morton key.
pub proof fn lemma_morton_key_unique(k1: u128, k2: u128, v: Seq<u64>, b: int)
    requires
        v.len() > 0,
        is_morton_key(k1, v, b),
        is_morton_key(k2, v, b),
    ensures
        k1 == k2,
{
    let d = v.len() as int;
    assert forall|p: int| 0 <= p < 128 implies bit128(k1, p) == bit128(k2, p) by {
        if p < b * d {
            lemma_split_position(p, b, d);
            let i = p / d;
            let k = p % d;
            assert(bit128(k1, i * d + k) == bit64(v[k], i));
            assert(bit128(k2, i * d + k) == bit64(v[k], i));
        }
    }
    lemma_key_bits_equal(k1, k2);
}

/// Decoding a key that has no bit at `b * d` or above gives coordinates whose
/// Morton key is that key.
pub proof fn lemma_morton_key_round_trip(key: u128, b: int, d: int, r: Seq<u64>)
    requires
        valid_shape(b, d),
        key_fits(key, b * d),
        is_morton_decoding(r, key, b, d),
    ensures
        is_morton_key(key, r, b),
{
    lemma_shape_bound(b, d);
    assert forall|i: int, k: int| 0 <= i < b && 0 <= k < d implies bit128(key, i * d + k)
        == #[trigger] bit64(r[k], i) by {}
    assert forall|p: int| b * d <= p implies !#[trigger] bit128(key, p) by {
        lemma_key_fits_high_bits(key, b * d, p);
    }
}

} // verus!
