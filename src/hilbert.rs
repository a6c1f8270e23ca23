//! The Hilbert curve, computed by the lindel crate. lindel's functions take
//! and return fixed-size arrays whose element type sets the bit width, so each
//! legal (element width, arity) pair has a wrapper of its own; `hilbert_encode`
//! and `hilbert_decode` pick the one for a runtime shape.

use vstd::prelude::*;

use crate::bits::{key_fits, keep_low_bits, low_bits};
use crate::morton::all_fit;
use crate::width::{lemma_shape_bound, valid_shape};

verus! {

/// The Hilbert index that lindel's `hilbert_encode` gives for the coordinates
/// `coords`, each held in an unsigned integer of `bits` bits.
pub uninterp spec fn hilbert_key(bits: nat, coords: Seq<u64>) -> u128;

/// The coordinates that lindel's `hilbert_decode` gives for the Hilbert index
/// `key` of `dims` coordinates of `bits` bits each.
pub uninterp spec fn hilbert_point(bits: nat, dims: nat, key: u128) -> Seq<u64>;

/// Relies on lindel::hilbert_encode over 1 coordinate of type u8: the
/// index of the point, below 2^8, which lindel::hilbert_decode maps back to it.
#[verifier::external_body]
fn hilbert_encode_8x1(v: &Vec<u64>) -> (r: u128)
    requires
        v.len() == 1,
        all_fit(v@, 8),
    ensures
        r == hilbert_key(8, v@),
        hilbert_point(8, 1, r) == v@,
        key_fits(r, 8),
{
    lindel::hilbert_encode::<u8, 1>(std::array::from_fn(|i| v[i] as u8)) as u128
}

/// Relies on lindel::hilbert_decode into 1 coordinate of type u8: the
/// point whose index, by lindel::hilbert_encode, is the key given.
#[verifier::external_body]
fn hilbert_decode_8x1(k: u128) -> (r: Vec<u64>)
    requires
        key_fits(k, 8),
    ensures
        r@ == hilbert_point(8, 1, k),
        r.len() == 1,
        all_fit(r@, 8),
        hilbert_key(8, r@) == k,
{
    lindel::hilbert_decode::<u8, 1>(k as u8).iter().map(|&x| x as u64).collect()
}

/// Relies on lindel::hilbert_encode over 2 coordinates of type u8: the
/// index of the point, below 2^16, which lindel::hilbert_decode maps back to it.
#[verifier::external_body]
fn hilbert_encode_8x2(v: &Vec<u64>) -> (r: u128)
    requires
        v.len() == 2,
        all_fit(v@, 8),
    ensures
        r == hilbert_key(8, v@),
        hilbert_point(8, 2, r) == v@,
        key_fits(r, 16),
{
    lindel::hilbert_encode::<u8, 2>(std::array::from_fn(|i| v[i] as u8)) as u128
}

/// Relies on lindel::hilbert_decode into 2 coordinates of type u8: the
/// point whose index, by lindel::hilbert_encode, is the key given.
#[verifier::external_body]
fn hilbert_decode_8x2(k: u128) -> (r: Vec<u64>)
    requires
        key_fits(k, 16),
    ensures
        r@ == hilbert_point(8, 2, k),
        r.len() == 2,
        all_fit(r@, 8),
        hilbert_key(8, r@) == k,
{
    lindel::hilbert_decode::<u8, 2>(k as u16).iter().map(|&x| x as u64).collect()
}

/// Relies on lindel::hilbert_encode over 3 coordinates of type u8: the
/// index of the point, below 2^24, which lindel::hilbert_decode maps back to it.
#[verifier::external_body]
fn hilbert_encode_8x3(v: &Vec<u64>) -> (r: u128)
    requires
        v.len() == 3,
        all_fit(v@, 8),
    ensures
        r == hilbert_key(8, v@),
        hilbert_point(8, 3, r) == v@,
        key_fits(r, 24),
{
    lindel::hilbert_encode::<u8, 3>(std::array::from_fn(|i| v[i] as u8)) as u128
}

/// Relies on lindel::hilbert_decode into 3 coordinates of type u8: the
/// point whose index, by lindel::hilbert_encode, is the key given.
#[verifier::external_body]
fn hilbert_decode_8x3(k: u128) -> (r: Vec<u64>)
    requires
        key_fits(k, 24),
    ensures
        r@ == hilbert_point(8, 3, k),
        r.len() == 3,
        all_fit(r@, 8),
        hilbert_key(8, r@) == k,
{
    lindel::hilbert_decode::<u8, 3>(k as u32).iter().map(|&x| x as u64).collect()
}

/// Relies on lindel::hilbert_encode over 4 coordinates of type u8: the
/// index of the point, below 2^32, which lindel::hilbert_decode maps back to it.
#[verifier::external_body]
fn hilbert_encode_8x4(v: &Vec<u64>) -> (r: u128)
    requires
        v.len() == 4,
        all_fit(v@, 8),
    ensures
        r == hilbert_key(8, v@),
        hilbert_point(8, 4, r) == v@,
        key_fits(r, 32),
{
    lindel::hilbert_encode::<u8, 4>(std::array::from_fn(|i| v[i] as u8)) as u128
}

/// Relies on lindel::hilbert_decode into 4 coordinates of type u8: the
/// point whose index, by lindel::hilbert_encode, is the key given.
#[verifier::external_body]
fn hilbert_decode_8x4(k: u128) -> (r: Vec<u64>)
    requires
        key_fits(k, 32),
    ensures
        r@ == hilbert_point(8, 4, k),
        r.len() == 4,
        all_fit(r@, 8),
        hilbert_key(8, r@) == k,
{
    lindel::hilbert_decode::<u8, 4>(k as u32).iter().map(|&x| x as u64).collect()
}

/// Relies on lindel::hilbert_encode over 5 coordinates of type u8: the
/// index of the point, below 2^40, which lindel::hilbert_decode maps back to it.
#[verifier::external_body]
fn hilbert_encode_8x5(v: &Vec<u64>) -> (r: u128)
    requires
        v.len() == 5,
        all_fit(v@, 8),
    ensures
        r == hilbert_key(8, v@),
        hilbert_point(8, 5, r) == v@,
        key_fits(r, 40),
{
    lindel::hilbert_encode::<u8, 5>(std::array::from_fn(|i| v[i] as u8)) as u128
}

/// Relies on lindel::hilbert_decode into 5 coordinates of type u8: the
/// point whose index, by lindel::hilbert_encode, is the key given.
#[verifier::external_body]
fn hilbert_decode_8x5(k: u128) -> (r: Vec<u64>)
    requires
        key_fits(k, 40),
    ensures
        r@ == hilbert_point(8, 5, k),
        r.len() == 5,
        all_fit(r@, 8),
        hilbert_key(8, r@) == k,
{
    lindel::hilbert_decode::<u8, 5>(k as u64).iter().map(|&x| x as u64).collect()
}

/// Relies on lindel::hilbert_encode over 6 coordinates of type u8: the
/// index of the point, below 2^48, which lindel::hilbert_decode maps back to it.
#[verifier::external_body]
fn hilbert_encode_8x6(v: &Vec<u64>) -> (r: u128)
    requires
        v.len() == 6,
        all_fit(v@, 8),
    ensures
        r == hilbert_key(8, v@),
        hilbert_point(8, 6, r) == v@,
        key_fits(r, 48),
{
    lindel::hilbert_encode::<u8, 6>(std::array::from_fn(|i| v[i] as u8)) as u128
}

/// Relies on lindel::hilbert_decode into 6 coordinates of type u8: the
/// point whose index, by lindel::hilbert_encode, is the key given.
#[verifier::external_body]
fn hilbert_decode_8x6(k: u128) -> (r: Vec<u64>)
    requires
        key_fits(k, 48),
    ensures
        r@ == hilbert_point(8, 6, k),
        r.len() == 6,
        all_fit(r@, 8),
        hilbert_key(8, r@) == k,
{
    lindel::hilbert_decode::<u8, 6>(k as u64).iter().map(|&x| x as u64).collect()
}

/// Relies on lindel::hilbert_encode over 7 coordinates of type u8: the
/// index of the point, below 2^56, which lindel::hilbert_decode maps back to it.
#[verifier::external_body]
fn hilbert_encode_8x7(v: &Vec<u64>) -> (r: u128)
    requires
        v.len() == 7,
        all_fit(v@, 8),
    ensures
        r == hilbert_key(8, v@),
        hilbert_point(8, 7, r) == v@,
        key_fits(r, 56),
{
    lindel::hilbert_encode::<u8, 7>(std::array::from_fn(|i| v[i] as u8)) as u128
}

/// Relies on lindel::hilbert_decode into 7 coordinates of type u8: the
/// point whose index, by lindel::hilbert_encode, is the key given.
#[verifier::external_body]
fn hilbert_decode_8x7(k: u128) -> (r: Vec<u64>)
    requires
        key_fits(k, 56),
    ensures
        r@ == hilbert_point(8, 7, k),
        r.len() == 7,
        all_fit(r@, 8),
        hilbert_key(8, r@) == k,
{
    lindel::hilbert_decode::<u8, 7>(k as u64).iter().map(|&x| x as u64).collect()
}

/// Relies on lindel::hilbert_encode over 8 coordinates of type u8: the
/// index of the point, below 2^64, which lindel::hilbert_decode maps back to it.
#[verifier::external_body]
fn hilbert_encode_8x8(v: &Vec<u64>) -> (r: u128)
    requires
        v.len() == 8,
        all_fit(v@, 8),
    ensures
        r == hilbert_key(8, v@),
        hilbert_point(8, 8, r) == v@,
        key_fits(r, 64),
{
    lindel::hilbert_encode::<u8, 8>(std::array::from_fn(|i| v[i] as u8)) as u128
}

/// Relies on lindel::hilbert_decode into 8 coordinates of type u8: the
/// point whose index, by lindel::hilbert_encode, is the key given.
#[verifier::external_body]
fn hilbert_decode_8x8(k: u128) -> (r: Vec<u64>)
    requires
        key_fits(k, 64),
    ensures
        r@ == hilbert_point(8, 8, k),
        r.len() == 8,
        all_fit(r@, 8),
        hilbert_key(8, r@) == k,
{
    lindel::hilbert_decode::<u8, 8>(k as u64).iter().map(|&x| x as u64).collect()
}

/// Relies on lindel::hilbert_encode over 9 coordinates of type u8: the
/// index of the point, below 2^72, which lindel::hilbert_decode maps back to it.
#[verifier::external_body]
fn hilbert_encode_8x9(v: &Vec<u64>) -> (r: u128)
    requires
        v.len() == 9,
        all_fit(v@, 8),
    ensures
        r == hilbert_key(8, v@),
        hilbert_point(8, 9, r) == v@,
        key_fits(r, 72),
{
    lindel::hilbert_encode::<u8, 9>(std::array::from_fn(|i| v[i] as u8))
}

/// Relies on lindel::hilbert_decode into 9 coordinates of type u8: the
/// point whose index, by lindel::hilbert_encode, is the key given.
#[verifier::external_body]
fn hilbert_decode_8x9(k: u128) -> (r: Vec<u64>)
    requires
        key_fits(k, 72),
    ensures
        r@ == hilbert_point(8, 9, k),
        r.len() == 9,
        all_fit(r@, 8),
        hilbert_key(8, r@) == k,
{
    lindel::hilbert_decode::<u8, 9>(k).iter().map(|&x| x as u64).collect()
}

/// Relies on lindel::hilbert_encode over 10 coordinates of type u8: the
/// index of the point, below 2^80, which lindel::hilbert_decode maps back to it.
#[verifier::external_body]
fn hilbert_encode_8x10(v: &Vec<u64>) -> (r: u128)
    requires
        v.len() == 10,
        all_fit(v@, 8),
    ensures
        r == hilbert_key(8, v@),
        hilbert_point(8, 10, r) == v@,
        key_fits(r, 80),
{
    lindel::hilbert_encode::<u8, 10>(std::array::from_fn(|i| v[i] as u8))
}

/// Relies on lindel::hilbert_decode into 10 coordinates of type u8: the
/// point whose index, by lindel::hilbert_encode, is the key given.
#[verifier::external_body]
fn hilbert_decode_8x10(k: u128) -> (r: Vec<u64>)
    requires
        key_fits(k, 80),
    ensures
        r@ == hilbert_point(8, 10, k),
        r.len() == 10,
        all_fit(r@, 8),
        hilbert_key(8, r@) == k,
{
    lindel::hilbert_decode::<u8, 10>(k).iter().map(|&x| x as u64).collect()
}

/// Relies on lindel::hilbert_encode over 11 coordinates of type u8: the
/// index of the point, below 2^88, which lindel::hilbert_decode maps back to it.
#[verifier::external_body]
fn hilbert_encode_8x11(v: &Vec<u64>) -> (r: u128)
    requires
        v.len() == 11,
        all_fit(v@, 8),
    ensures
        r == hilbert_key(8, v@),
        hilbert_point(8, 11, r) == v@,
        key_fits(r, 88),
{
    lindel::hilbert_encode::<u8, 11>(std::array::from_fn(|i| v[i] as u8))
}

/// Relies on lindel::hilbert_decode into 11 coordinates of type u8: the
/// point whose index, by lindel::hilbert_encode, is the key given.
#[verifier::external_body]
fn hilbert_decode_8x11(k: u128) -> (r: Vec<u64>)
    requires
        key_fits(k, 88),
    ensures
        r@ == hilbert_point(8, 11, k),
        r.len() == 11,
        all_fit(r@, 8),
        hilbert_key(8, r@) == k,
{
    lindel::hilbert_decode::<u8, 11>(k).iter().map(|&x| x as u64).collect()
}

/// Relies on lindel::hilbert_encode over 12 coordinates of type u8: the
/// index of the point, below 2^96, which lindel::hilbert_decode maps back to it.
#[verifier::external_body]
fn hilbert_encode_8x12(v: &Vec<u64>) -> (r: u128)
    requires
        v.len() == 12,
        all_fit(v@, 8),
    ensures
        r == hilbert_key(8, v@),
        hilbert_point(8, 12, r) == v@,
        key_fits(r, 96),
{
    lindel::hilbert_encode::<u8, 12>(std::array::from_fn(|i| v[i] as u8))
}

/// Relies on lindel::hilbert_decode into 12 coordinates of type u8: the
/// point whose index, by lindel::hilbert_encode, is the key given.
#[verifier::external_body]
fn hilbert_decode_8x12(k: u128) -> (r: Vec<u64>)
    requires
        key_fits(k, 96),
    ensures
        r@ == hilbert_point(8, 12, k),
        r.len() == 12,
        all_fit(r@, 8),
        hilbert_key(8, r@) == k,
{
    lindel::hilbert_decode::<u8, 12>(k).iter().map(|&x| x as u64).collect()
}

/// Relies on lindel::hilbert_encode over 13 coordinates of type u8: the
/// index of the point, below 2^104, which lindel::hilbert_decode maps back to it.
#[verifier::external_body]
fn hilbert_encode_8x13(v: &Vec<u64>) -> (r: u128)
    requires
        v.len() == 13,
        all_fit(v@, 8),
    ensures
        r == hilbert_key(8, v@),
        hilbert_point(8, 13, r) == v@,
        key_fits(r, 104),
{
    lindel::hilbert_encode::<u8, 13>(std::array::from_fn(|i| v[i] as u8))
}

/// Relies on lindel::hilbert_decode into 13 coordinates of type u8: the
/// point whose index, by lindel::hilbert_encode, is the key given.
#[verifier::external_body]
fn hilbert_decode_8x13(k: u128) -> (r: Vec<u64>)
    requires
        key_fits(k, 104),
    ensures
        r@ == hilbert_point(8, 13, k),
        r.len() == 13,
        all_fit(r@, 8),
        hilbert_key(8, r@) == k,
{
    lindel::hilbert_decode::<u8, 13>(k).iter().map(|&x| x as u64).collect()
}

/// Relies on lindel::hilbert_encode over 14 coordinates of type u8: the
/// index of the point, below 2^112, which lindel::hilbert_decode maps back to it.
#[verifier::external_body]
fn hilbert_encode_8x14(v: &Vec<u64>) -> (r: u128)
    requires
        v.len() == 14,
        all_fit(v@, 8),
    ensures
        r == hilbert_key(8, v@),
        hilbert_point(8, 14, r) == v@,
        key_fits(r, 112),
{
    lindel::hilbert_encode::<u8, 14>(std::array::from_fn(|i| v[i] as u8))
}

/// Relies on lindel::hilbert_decode into 14 coordinates of type u8: the
/// point whose index, by lindel::hilbert_encode, is the key given.
#[verifier::external_body]
fn hilbert_decode_8x14(k: u128) -> (r: Vec<u64>)
    requires
        key_fits(k, 112),
    ensures
        r@ == hilbert_point(8, 14, k),
        r.len() == 14,
        all_fit(r@, 8),
        hilbert_key(8, r@) == k,
{
    lindel::hilbert_decode::<u8, 14>(k).iter().map(|&x| x as u64).collect()
}

/// Relies on lindel::hilbert_encode over 15 coordinates of type u8: the
/// index of the point, below 2^120, which lindel::hilbert_decode maps back to it.
#[verifier::external_body]
fn hilbert_encode_8x15(v: &Vec<u64>) -> (r: u128)
    requires
        v.len() == 15,
        all_fit(v@, 8),
    ensures
        r == hilbert_key(8, v@),
        hilbert_point(8, 15, r) == v@,
        key_fits(r, 120),
{
    lindel::hilbert_encode::<u8, 15>(std::array::from_fn(|i| v[i] as u8))
}

/// Relies on lindel::hilbert_decode into 15 coordinates of type u8: the
/// point whose index, by lindel::hilbert_encode, is the key given.
#[verifier::external_body]
fn hilbert_decode_8x15(k: u128) -> (r: Vec<u64>)
    requires
        key_fits(k, 120),
    ensures
        r@ == hilbert_point(8, 15, k),
        r.len() == 15,
        all_fit(r@, 8),
        hilbert_key(8, r@) == k,
{
    lindel::hilbert_decode::<u8, 15>(k).iter().map(|&x| x as u64).collect()
}

/// Relies on lindel::hilbert_encode over 16 coordinates of type u8: the
/// index of the point, below 2^128, which lindel::hilbert_decode maps back to it.
#[verifier::external_body]
fn hilbert_encode_8x16(v: &Vec<u64>) -> (r: u128)
    requires
        v.len() == 16,
        all_fit(v@, 8),
    ensures
        r == hilbert_key(8, v@),
        hilbert_point(8, 16, r) == v@,
        key_fits(r, 128),
{
    lindel::hilbert_encode::<u8, 16>(std::array::from_fn(|i| v[i] as u8))
}

/// Relies on lindel::hilbert_decode into 16 coordinates of type u8: the
/// point whose index, by lindel::hilbert_encode, is the key given.
#[verifier::external_body]
fn hilbert_decode_8x16(k: u128) -> (r: Vec<u64>)
    requires
        key_fits(k, 128),
    ensures
        r@ == hilbert_point(8, 16, k),
        r.len() == 16,
        all_fit(r@, 8),
        hilbert_key(8, r@) == k,
{
    lindel::hilbert_decode::<u8, 16>(k).iter().map(|&x| x as u64).collect()
}

/// Relies on lindel::hilbert_encode over 1 coordinate of type u16: the
/// index of the point, below 2^16, which lindel::hilbert_decode maps back to it.
#[verifier::external_body]
fn hilbert_encode_16x1(v: &Vec<u64>) -> (r: u128)
    requires
        v.len() == 1,
        all_fit(v@, 16),
    ensures
        r == hilbert_key(16, v@),
        hilbert_point(16, 1, r) == v@,
        key_fits(r, 16),
{
    lindel::hilbert_encode::<u16, 1>(std::array::from_fn(|i| v[i] as u16)) as u128
}

/// Relies on lindel::hilbert_decode into 1 coordinate of type u16: the
/// point whose index, by lindel::hilbert_encode, is the key given.
#[verifier::external_body]
fn hilbert_decode_16x1(k: u128) -> (r: Vec<u64>)
    requires
        key_fits(k, 16),
    ensures
        r@ == hilbert_point(16, 1, k),
        r.len() == 1,
        all_fit(r@, 16),
        hilbert_key(16, r@) == k,
{
    lindel::hilbert_decode::<u16, 1>(k as u16).iter().map(|&x| x as u64).collect()
}

/// Relies on lindel::hilbert_encode over 2 coordinates of type u16: the
/// index of the point, below 2^32, which lindel::hilbert_decode maps back to it.
#[verifier::external_body]
fn hilbert_encode_16x2(v: &Vec<u64>) -> (r: u128)
    requires
        v.len() == 2,
        all_fit(v@, 16),
    ensures
        r == hilbert_key(16, v@),
        hilbert_point(16, 2, r) == v@,
        key_fits(r, 32),
{
    lindel::hilbert_encode::<u16, 2>(std::array::from_fn(|i| v[i] as u16)) as u128
}

/// Relies on lindel::hilbert_decode into 2 coordinates of type u16: the
/// point whose index, by lindel::hilbert_encode, is the key given.
#[verifier::external_body]
fn hilbert_decode_16x2(k: u128) -> (r: Vec<u64>)
    requires
        key_fits(k, 32),
    ensures
        r@ == hilbert_point(16, 2, k),
        r.len() == 2,
        all_fit(r@, 16),
        hilbert_key(16, r@) == k,
{
    lindel::hilbert_decode::<u16, 2>(k as u32).iter().map(|&x| x as u64).collect()
}

/// Relies on lindel::hilbert_encode over 3 coordinates of type u16: the
/// index of the point, below 2^48, which lindel::hilbert_decode maps back to it.
#[verifier::external_body]
fn hilbert_encode_16x3(v: &Vec<u64>) -> (r: u128)
    requires
        v.len() == 3,
        all_fit(v@, 16),
    ensures
        r == hilbert_key(16, v@),
        hilbert_point(16, 3, r) == v@,
        key_fits(r, 48),
{
    lindel::hilbert_encode::<u16, 3>(std::array::from_fn(|i| v[i] as u16)) as u128
}

/// Relies on lindel::hilbert_decode into 3 coordinates of type u16: the
/// point whose index, by lindel::hilbert_encode, is the key given.
#[verifier::external_body]
fn hilbert_decode_16x3(k: u128) -> (r: Vec<u64>)
    requires
        key_fits(k, 48),
    ensures
        r@ == hilbert_point(16, 3, k),
        r.len() == 3,
        all_fit(r@, 16),
        hilbert_key(16, r@) == k,
{
    lindel::hilbert_decode::<u16, 3>(k as u64).iter().map(|&x| x as u64).collect()
}

/// Relies on lindel::hilbert_encode over 4 coordinates of type u16: the
/// index of the point, below 2^64, which lindel::hilbert_decode maps back to it.
#[verifier::external_body]
fn hilbert_encode_16x4(v: &Vec<u64>) -> (r: u128)
    requires
        v.len() == 4,
        all_fit(v@, 16),
    ensures
        r == hilbert_key(16, v@),
        hilbert_point(16, 4, r) == v@,
        key_fits(r, 64),
{
    lindel::hilbert_encode::<u16, 4>(std::array::from_fn(|i| v[i] as u16)) as u128
}

/// Relies on lindel::hilbert_decode into 4 coordinates of type u16: the
/// point whose index, by lindel::hilbert_encode, is the key given.
#[verifier::external_body]
fn hilbert_decode_16x4(k: u128) -> (r: Vec<u64>)
    requires
        key_fits(k, 64),
    ensures
        r@ == hilbert_point(16, 4, k),
        r.len() == 4,
        all_fit(r@, 16),
        hilbert_key(16, r@) == k,
{
    lindel::hilbert_decode::<u16, 4>(k as u64).iter().map(|&x| x as u64).collect()
}

/// Relies on lindel::hilbert_encode over 5 coordinates of type u16: the
/// index of the point, below 2^80, which lindel::hilbert_decode maps back to it.
#[verifier::external_body]
fn hilbert_encode_16x5(v: &Vec<u64>) -> (r: u128)
    requires
        v.len() == 5,
        all_fit(v@, 16),
    ensures
        r == hilbert_key(16, v@),
        hilbert_point(16, 5, r) == v@,
        key_fits(r, 80),
{
    lindel::hilbert_encode::<u16, 5>(std::array::from_fn(|i| v[i] as u16))
}

/// Relies on lindel::hilbert_decode into 5 coordinates of type u16: the
/// point whose index, by lindel::hilbert_encode, is the key given.
#[verifier::external_body]
fn hilbert_decode_16x5(k: u128) -> (r: Vec<u64>)
    requires
        key_fits(k, 80),
    ensures
        r@ == hilbert_point(16, 5, k),
        r.len() == 5,
        all_fit(r@, 16),
        hilbert_key(16, r@) == k,
{
    lindel::hilbert_decode::<u16, 5>(k).iter().map(|&x| x as u64).collect()
}

/// Relies on lindel::hilbert_encode over 6 coordinates of type u16: the
/// index of the point, below 2^96, which lindel::hilbert_decode maps back to it.
#[verifier::external_body]
fn hilbert_encode_16x6(v: &Vec<u64>) -> (r: u128)
    requires
        v.len() == 6,
        all_fit(v@, 16),
    ensures
        r == hilbert_key(16, v@),
        hilbert_point(16, 6, r) == v@,
        key_fits(r, 96),
{
    lindel::hilbert_encode::<u16, 6>(std::array::from_fn(|i| v[i] as u16))
}

/// Relies on lindel::hilbert_decode into 6 coordinates of type u16: the
/// point whose index, by lindel::hilbert_encode, is the key given.
#[verifier::external_body]
fn hilbert_decode_16x6(k: u128) -> (r: Vec<u64>)
    requires
        key_fits(k, 96),
    ensures
        r@ == hilbert_point(16, 6, k),
        r.len() == 6,
        all_fit(r@, 16),
        hilbert_key(16, r@) == k,
{
    lindel::hilbert_decode::<u16, 6>(k).iter().map(|&x| x as u64).collect()
}

/// Relies on lindel::hilbert_encode over 7 coordinates of type u16: the
/// index of the point, below 2^112, which lindel::hilbert_decode maps back to it.
#[verifier::external_body]
fn hilbert_encode_16x7(v: &Vec<u64>) -> (r: u128)
    requires
        v.len() == 7,
        all_fit(v@, 16),
    ensures
        r == hilbert_key(16, v@),
        hilbert_point(16, 7, r) == v@,
        key_fits(r, 112),
{
    lindel::hilbert_encode::<u16, 7>(std::array::from_fn(|i| v[i] as u16))
}

/// Relies on lindel::hilbert_decode into 7 coordinates of type u16: the
/// point whose index, by lindel::hilbert_encode, is the key given.
#[verifier::external_body]
fn hilbert_decode_16x7(k: u128) -> (r: Vec<u64>)
    requires
        key_fits(k, 112),
    ensures
        r@ == hilbert_point(16, 7, k),
        r.len() == 7,
        all_fit(r@, 16),
        hilbert_key(16, r@) == k,
{
    lindel::hilbert_decode::<u16, 7>(k).iter().map(|&x| x as u64).collect()
}

/// Relies on lindel::hilbert_encode over 8 coordinates of type u16: the
/// index of the point, below 2^128, which lindel::hilbert_decode maps back to it.
#[verifier::external_body]
fn hilbert_encode_16x8(v: &Vec<u64>) -> (r: u128)
    requires
        v.len() == 8,
        all_fit(v@, 16),
    ensures
        r == hilbert_key(16, v@),
        hilbert_point(16, 8, r) == v@,
        key_fits(r, 128),
{
    lindel::hilbert_encode::<u16, 8>(std::array::from_fn(|i| v[i] as u16))
}

/// Relies on lindel::hilbert_decode into 8 coordinates of type u16: the
/// point whose index, by lindel::hilbert_encode, is the key given.
#[verifier::external_body]
fn hilbert_decode_16x8(k: u128) -> (r: Vec<u64>)
    requires
        key_fits(k, 128),
    ensures
        r@ == hilbert_point(16, 8, k),
        r.len() == 8,
        all_fit(r@, 16),
        hilbert_key(16, r@) == k,
{
    lindel::hilbert_decode::<u16, 8>(k).iter().map(|&x| x as u64).collect()
}

/// Relies on lindel::hilbert_encode over 1 coordinate of type u32: the
/// index of the point, below 2^32, which lindel::hilbert_decode maps back to it.
#[verifier::external_body]
fn hilbert_encode_32x1(v: &Vec<u64>) -> (r: u128)
    requires
        v.len() == 1,
        all_fit(v@, 32),
    ensures
        r == hilbert_key(32, v@),
        hilbert_point(32, 1, r) == v@,
        key_fits(r, 32),
{
    lindel::hilbert_encode::<u32, 1>(std::array::from_fn(|i| v[i] as u32)) as u128
}

/// Relies on lindel::hilbert_decode into 1 coordinate of type u32: the
/// point whose index, by lindel::hilbert_encode, is the key given.
#[verifier::external_body]
fn hilbert_decode_32x1(k: u128) -> (r: Vec<u64>)
    requires
        key_fits(k, 32),
    ensures
        r@ == hilbert_point(32, 1, k),
        r.len() == 1,
        all_fit(r@, 32),
        hilbert_key(32, r@) == k,
{
    lindel::hilbert_decode::<u32, 1>(k as u32).iter().map(|&x| x as u64).collect()
}

/// Relies on lindel::hilbert_encode over 2 coordinates of type u32: the
/// index of the point, below 2^64, which lindel::hilbert_decode maps back to it.
#[verifier::external_body]
fn hilbert_encode_32x2(v: &Vec<u64>) -> (r: u128)
    requires
        v.len() == 2,
        all_fit(v@, 32),
    ensures
        r == hilbert_key(32, v@),
        hilbert_point(32, 2, r) == v@,
        key_fits(r, 64),
{
    lindel::hilbert_encode::<u32, 2>(std::array::from_fn(|i| v[i] as u32)) as u128
}

/// Relies on lindel::hilbert_decode into 2 coordinates of type u32: the
/// point whose index, by lindel::hilbert_encode, is the key given.
#[verifier::external_body]
fn hilbert_decode_32x2(k: u128) -> (r: Vec<u64>)
    requires
        key_fits(k, 64),
    ensures
        r@ == hilbert_point(32, 2, k),
        r.len() == 2,
        all_fit(r@, 32),
        hilbert_key(32, r@) == k,
{
    lindel::hilbert_decode::<u32, 2>(k as u64).iter().map(|&x| x as u64).collect()
}

/// Relies on lindel::hilbert_encode over 3 coordinates of type u32: the
/// index of the point, below 2^96, which lindel::hilbert_decode maps back to it.
#[verifier::external_body]
fn hilbert_encode_32x3(v: &Vec<u64>) -> (r: u128)
    requires
        v.len() == 3,
        all_fit(v@, 32),
    ensures
        r == hilbert_key(32, v@),
        hilbert_point(32, 3, r) == v@,
        key_fits(r, 96),
{
    lindel::hilbert_encode::<u32, 3>(std::array::from_fn(|i| v[i] as u32))
}

/// Relies on lindel::hilbert_decode into 3 coordinates of type u32: the
/// point whose index, by lindel::hilbert_encode, is the key given.
#[verifier::external_body]
fn hilbert_decode_32x3(k: u128) -> (r: Vec<u64>)
    requires
        key_fits(k, 96),
    ensures
        r@ == hilbert_point(32, 3, k),
        r.len() == 3,
        all_fit(r@, 32),
        hilbert_key(32, r@) == k,
{
    lindel::hilbert_decode::<u32, 3>(k).iter().map(|&x| x as u64).collect()
}

/// Relies on lindel::hilbert_encode over 4 coordinates of type u32: the
/// index of the point, below 2^128, which lindel::hilbert_decode maps back to it.
#[verifier::external_body]
fn hilbert_encode_32x4(v: &Vec<u64>) -> (r: u128)
    requires
        v.len() == 4,
        all_fit(v@, 32),
    ensures
        r == hilbert_key(32, v@),
        hilbert_point(32, 4, r) == v@,
        key_fits(r, 128),
{
    lindel::hilbert_encode::<u32, 4>(std::array::from_fn(|i| v[i] as u32))
}

/// Relies on lindel::hilbert_decode into 4 coordinates of type u32: the
/// point whose index, by lindel::hilbert_encode, is the key given.
#[verifier::external_body]
fn hilbert_decode_32x4(k: u128) -> (r: Vec<u64>)
    requires
        key_fits(k, 128),
    ensures
        r@ == hilbert_point(32, 4, k),
        r.len() == 4,
        all_fit(r@, 32),
        hilbert_key(32, r@) == k,
{
    lindel::hilbert_decode::<u32, 4>(k).iter().map(|&x| x as u64).collect()
}

/// Relies on lindel::hilbert_encode over 1 coordinate of type u64: the
/// index of the point, below 2^64, which lindel::hilbert_decode maps back to it.
#[verifier::external_body]
fn hilbert_encode_64x1(v: &Vec<u64>) -> (r: u128)
    requires
        v.len() == 1,
        all_fit(v@, 64),
    ensures
        r == hilbert_key(64, v@),
        hilbert_point(64, 1, r) == v@,
        key_fits(r, 64),
{
    lindel::hilbert_encode::<u64, 1>(std::array::from_fn(|i| v[i] as u64)) as u128
}

/// Relies on lindel::hilbert_decode into 1 coordinate of type u64: the
/// point whose index, by lindel::hilbert_encode, is the key given.
#[verifier::external_body]
fn hilbert_decode_64x1(k: u128) -> (r: Vec<u64>)
    requires
        key_fits(k, 64),
    ensures
        r@ == hilbert_point(64, 1, k),
        r.len() == 1,
        all_fit(r@, 64),
        hilbert_key(64, r@) == k,
{
    lindel::hilbert_decode::<u64, 1>(k as u64).iter().map(|&x| x as u64).collect()
}

/// Relies on lindel::hilbert_encode over 2 coordinates of type u64: the
/// index of the point, below 2^128, which lindel::hilbert_decode maps back to it.
#[verifier::external_body]
fn hilbert_encode_64x2(v: &Vec<u64>) -> (r: u128)
    requires
        v.len() == 2,
        all_fit(v@, 64),
    ensures
        r == hilbert_key(64, v@),
        hilbert_point(64, 2, r) == v@,
        key_fits(r, 128),
{
    lindel::hilbert_encode::<u64, 2>(std::array::from_fn(|i| v[i] as u64))
}

/// Relies on lindel::hilbert_decode into 2 coordinates of type u64: the
/// point whose index, by lindel::hilbert_encode, is the key given.
#[verifier::external_body]
fn hilbert_decode_64x2(k: u128) -> (r: Vec<u64>)
    requires
        key_fits(k, 128),
    ensures
        r@ == hilbert_point(64, 2, k),
        r.len() == 2,
        all_fit(r@, 64),
        hilbert_key(64, r@) == k,
{
    lindel::hilbert_decode::<u64, 2>(k).iter().map(|&x| x as u64).collect()
}

/// The Hilbert index of a tuple of `values.len()` coordinates of `b` bits each.
pub fn hilbert_encode(values: &Vec<u64>, b: u32) -> (key: u128)
    requires
        valid_shape(b as int, values.len() as int),
        all_fit(values@, b as int),
    ensures
        key == hilbert_key(b as nat, values@),
        hilbert_point(b as nat, values.len() as nat, key) == values@,
        key_fits(key, b * values.len()),
{
    let d = values.len();
    if b == 8 {
        if d == 1 {
            hilbert_encode_8x1(values)
        } else if d == 2 {
            hilbert_encode_8x2(values)
        } else if d == 3 {
            hilbert_encode_8x3(values)
        } else if d == 4 {
            hilbert_encode_8x4(values)
        } else if d == 5 {
            hilbert_encode_8x5(values)
        } else if d == 6 {
            hilbert_encode_8x6(values)
        } else if d == 7 {
            hilbert_encode_8x7(values)
        } else if d == 8 {
            hilbert_encode_8x8(values)
        } else if d == 9 {
            hilbert_encode_8x9(values)
        } else if d == 10 {
            hilbert_encode_8x10(values)
        } else if d == 11 {
            hilbert_encode_8x11(values)
        } else if d == 12 {
            hilbert_encode_8x12(values)
        } else if d == 13 {
            hilbert_encode_8x13(values)
        } else if d == 14 {
            hilbert_encode_8x14(values)
        } else if d == 15 {
            hilbert_encode_8x15(values)
        } else {
            hilbert_encode_8x16(values)
        }
    } else if b == 16 {
        if d == 1 {
            hilbert_encode_16x1(values)
        } else if d == 2 {
            hilbert_encode_16x2(values)
        } else if d == 3 {
            hilbert_encode_16x3(values)
        } else if d == 4 {
            hilbert_encode_16x4(values)
        } else if d == 5 {
            hilbert_encode_16x5(values)
        } else if d == 6 {
            hilbert_encode_16x6(values)
        } else if d == 7 {
            hilbert_encode_16x7(values)
        } else {
            hilbert_encode_16x8(values)
        }
    } else if b == 32 {
        if d == 1 {
            hilbert_encode_32x1(values)
        } else if d == 2 {
            hilbert_encode_32x2(values)
        } else if d == 3 {
            hilbert_encode_32x3(values)
        } else {
            hilbert_encode_32x4(values)
        }
    } else {
        if d == 1 {
            hilbert_encode_64x1(values)
        } else {
            hilbert_encode_64x2(values)
        }
    }}

/// The `d` coordinates of `b` bits each whose Hilbert index is the low
/// `b * d` bits of `key`; the bits above are not read.
pub fn hilbert_decode(key: u128, b: u32, d: usize) -> (r: Vec<u64>)
    requires
        valid_shape(b as int, d as int),
    ensures
        r@ == hilbert_point(b as nat, d as nat, low_bits(key, b * d)),
        r.len() == d,
        all_fit(r@, b as int),
        hilbert_key(b as nat, r@) == low_bits(key, b * d),
{
    proof {
        lemma_shape_bound(b as int, d as int);
    }
    let k = keep_low_bits(key, b * (d as u32));
    if b == 8 {
        if d == 1 {
            hilbert_decode_8x1(k)
        } else if d == 2 {
            hilbert_decode_8x2(k)
        } else if d == 3 {
            hilbert_decode_8x3(k)
        } else if d == 4 {
            hilbert_decode_8x4(k)
        } else if d == 5 {
            hilbert_decode_8x5(k)
        } else if d == 6 {
            hilbert_decode_8x6(k)
        } else if d == 7 {
            hilbert_decode_8x7(k)
        } else if d == 8 {
            hilbert_decode_8x8(k)
        } else if d == 9 {
            hilbert_decode_8x9(k)
        } else if d == 10 {
            hilbert_decode_8x10(k)
        } else if d == 11 {
            hilbert_decode_8x11(k)
        } else if d == 12 {
            hilbert_decode_8x12(k)
        } else if d == 13 {
            hilbert_decode_8x13(k)
        } else if d == 14 {
            hilbert_decode_8x14(k)
        } else if d == 15 {
            hilbert_decode_8x15(k)
        } else {
            hilbert_decode_8x16(k)
        }
    } else if b == 16 {
        if d == 1 {
            hilbert_decode_16x1(k)
        } else if d == 2 {
            hilbert_decode_16x2(k)
        } else if d == 3 {
            hilbert_decode_16x3(k)
        } else if d == 4 {
            hilbert_decode_16x4(k)
        } else if d == 5 {
            hilbert_decode_16x5(k)
        } else if d == 6 {
            hilbert_decode_16x6(k)
        } else if d == 7 {
            hilbert_decode_16x7(k)
        } else {
            hilbert_decode_16x8(k)
        }
    } else if b == 32 {
        if d == 1 {
            hilbert_decode_32x1(k)
        } else if d == 2 {
            hilbert_decode_32x2(k)
        } else if d == 3 {
            hilbert_decode_32x3(k)
        } else {
            hilbert_decode_32x4(k)
        }
    } else {
        if d == 1 {
            hilbert_decode_64x1(k)
        } else {
            hilbert_decode_64x2(k)
        }
    }}

} // verus!
