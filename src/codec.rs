//! The entry points: check the shape, pick the curve, encode or decode.

use vstd::prelude::*;

use crate::bits::{bit64, fits, key_fits, lemma_bits_equal, lemma_low_bits_of_fitting, lemma_zero_bits, low_bits};
use crate::hilbert::{hilbert_decode, hilbert_encode, hilbert_key, hilbert_point};
use crate::morton::{
    all_fit, is_morton_decoding, is_morton_key, lemma_morton_key_round_trip, lemma_morton_key_unique,
    lemma_morton_round_trip, morton_decode, morton_encode,
};
use crate::width::{lemma_shape_bound, resolve_width, valid_element_width, valid_shape, width_result, CodecError};

verus! {

/// The space-filling curve that a key follows.
#[derive(Clone, Copy, Debug, PartialEq, Eq, Structural)]
pub enum CurveType {
    Hilbert,
    Morton,
}

/// The curve that a tag names: 0 is Hilbert, 1 is Morton.
pub open spec fn curve_of_tag(tag: u8) -> Result<CurveType, CodecError> {
    if tag == 0 {
        Ok(CurveType::Hilbert)
    } else if tag == 1 {
        Ok(CurveType::Morton)
    } else {
        Err(CodecError::InvalidEncodingType)
    }
}

impl CurveType {
    /// Reads a curve tag: 0 is Hilbert, 1 is Morton, anything else is refused.
    pub fn from_tag(tag: u8) -> (r: Result<CurveType, CodecError>)
        ensures
            r == curve_of_tag(tag),
    {
        if tag == 0 {
            Ok(CurveType::Hilbert)
        } else if tag == 1 {
            Ok(CurveType::Morton)
        } else {
            Err(CodecError::InvalidEncodingType)
        }
    }

    /// The tag of this curve.
    pub fn tag(&self) -> (r: u8)
        ensures
            curve_of_tag(r) == Ok::<CurveType, CodecError>(*self),
    {
        match self {
            CurveType::Hilbert => 0,
            CurveType::Morton => 1,
        }
    }
}

/// `key` is the key of the coordinates `v` of `b` bits on `curve`.
pub open spec fn encodes(curve: CurveType, v: Seq<u64>, b: int, key: u128) -> bool {
    match curve {
        CurveType::Morton => is_morton_key(key, v, b),
        CurveType::Hilbert => {
            &&& key == hilbert_key(b as nat, v)
            &&& key_fits(key, b * v.len())
            &&& hilbert_point(b as nat, v.len(), key) == v
        },
    }
}

/// `r` are the `d` coordinates of `b` bits that `key` stands for on `curve`.
pub open spec fn decodes(curve: CurveType, key: u128, b: int, d: int, r: Seq<u64>) -> bool {
    &&& r.len() == d
    &&& all_fit(r, b)
    &&& match curve {
        CurveType::Morton => is_morton_decoding(r, key, b, d),
        CurveType::Hilbert => {
            &&& r == hilbert_point(b as nat, d as nat, low_bits(key, b * d))
            &&& hilbert_key(b as nat, r) == low_bits(key, b * d)
        },
    }
}

/// Encodes a tuple of coordinates into one key on the given curve. The arity
/// is the length of `values`; the key has the width that `resolve_width` gives.
pub fn encode(curve: CurveType, values: &Vec<u64>, element_bit_width: u32) -> (r: Result<
    u128,
    CodecError,
>)
    requires
        valid_element_width(element_bit_width as int) ==> all_fit(
            values@,
            element_bit_width as int,
        ),
    ensures
        width_result(element_bit_width as int, values.len() as int) is Err ==> r == Err::<
            u128,
            CodecError,
        >(width_result(element_bit_width as int, values.len() as int)->Err_0),
        width_result(element_bit_width as int, values.len() as int) is Ok ==> r is Ok && encodes(
            curve,
            values@,
            element_bit_width as int,
            r->Ok_0,
        ),
{
    match resolve_width(element_bit_width, values.len()) {
        Err(e) => Err(e),
        Ok(_) => {
            match curve {
                CurveType::Morton => Ok(morton_encode(values, element_bit_width)),
                CurveType::Hilbert => Ok(hilbert_encode(values, element_bit_width)),
            }
        },
    }
}

/// Decodes a key into `arity` coordinates of `element_bit_width` bits on the
/// given curve. Only the low `element_bit_width * arity` bits of the key are read.
pub fn decode(curve: CurveType, key: u128, element_bit_width: u32, arity: usize) -> (r: Result<
    Vec<u64>,
    CodecError,
>)
    ensures
        width_result(element_bit_width as int, arity as int) is Err ==> r is Err && r->Err_0
            == width_result(element_bit_width as int, arity as int)->Err_0,
        width_result(element_bit_width as int, arity as int) is Ok ==> r is Ok && decodes(
            curve,
            key,
            element_bit_width as int,
            arity as int,
            r->Ok_0@,
        ),
{
    match resolve_width(element_bit_width, arity) {
        Err(e) => Err(e),
        Ok(_) => {
            match curve {
                CurveType::Morton => {
                    let r = morton_decode(key, element_bit_width, arity);
                    proof {
                        lemma_morton_decoding_fits(r@, key, element_bit_width as int, arity as int);
                    }
                    Ok(r)
                },
                CurveType::Hilbert => Ok(hilbert_decode(key, element_bit_width, arity)),
            }
        },
    }
}

/// Decodes a key given the curve as a tag (0 is Hilbert, 1 is Morton), the
/// element bit width and the number of coordinates. The width and the arity
/// are checked before the tag.
pub fn perform_decode(encoding_type: u8, element_bit_width: u8, src: u128, dest_len: usize) -> (r:
    Result<Vec<u64>, CodecError>)
    ensures
        width_result(element_bit_width as int, dest_len as int) is Err ==> r is Err && r->Err_0
            == width_result(element_bit_width as int, dest_len as int)->Err_0,
        width_result(element_bit_width as int, dest_len as int) is Ok && curve_of_tag(encoding_type) is Err
            ==> r == Err::<Vec<u64>, CodecError>(CodecError::InvalidEncodingType),
        width_result(element_bit_width as int, dest_len as int) is Ok && curve_of_tag(encoding_type) is Ok
            ==> r is Ok && decodes(
            curve_of_tag(encoding_type)->Ok_0,
            src,
            element_bit_width as int,
            dest_len as int,
            r->Ok_0@,
        ),
{
    match resolve_width(element_bit_width as u32, dest_len) {
        Err(e) => Err(e),
        Ok(_) => match CurveType::from_tag(encoding_type) {
            Err(e) => Err(e),
            Ok(curve) => decode(curve, src, element_bit_width as u32, dest_len),
        },
    }
}

/// Morton decoding yields coordinates of `b` bits.
proof fn lemma_morton_decoding_fits(r: Seq<u64>, key: u128, b: int, d: int)
    requires
        valid_shape(b, d),
        is_morton_decoding(r, key, b, d),
    ensures
        all_fit(r, b),
{
    lemma_shape_bound(b, d);
    assert forall|k: int| 0 <= k < r.len() implies #[trigger] fits(r[k], b) by {
        if b < 64 {
            let x = r[k];
            let bb = b as u64;
            assert forall|i: int| 0 <= i < 64 implies bit64(x >> bb, i) == bit64(0u64, i) by {
                assert(!bit64(x, i + b));
                let ii = i as u64;
                assert(((x >> bb) >> ii) & 1u64 == (if ii + bb < 64 { (x >> (ii + bb)) & 1u64 } else { 0u64 })) by (bit_vector)
                    requires
                        bb < 64,
                        ii < 64,
                ;
                lemma_zero_bits();
            }
            lemma_bits_equal(x >> bb, 0u64);
        }
    }
}

/// Decoding a key with the curve, element width and arity it was encoded with
/// gives back the coordinates.
pub proof fn lemma_round_trip(curve: CurveType, v: Seq<u64>, b: int, key: u128, r: Seq<u64>)
    requires
        valid_shape(b, v.len() as int),
        all_fit(v, b),
        encodes(curve, v, b, key),
        decodes(curve, key, b, v.len() as int, r),
    ensures
        r == v,
{
    match curve {
        CurveType::Morton => {
            lemma_morton_round_trip(v, b, key, r);
        },
        CurveType::Hilbert => {
            lemma_low_bits_of_fitting(key, b * v.len());
        },
    }
}

/// Encoding the coordinates that a key decodes to gives back the key, for
/// every key with no bit at `b * d` or above (every key that encoding makes).
pub proof fn lemma_key_round_trip(curve: CurveType, key: u128, b: int, d: int, r: Seq<u64>, again: u128)
    requires
        valid_shape(b, d),
        key_fits(key, b * d),
        decodes(curve, key, b, d, r),
        encodes(curve, r, b, again),
    ensures
        again == key,
{
    lemma_shape_bound(b, d);
    lemma_low_bits_of_fitting(key, b * d);
    match curve {
        CurveType::Morton => {
            lemma_morton_key_round_trip(key, b, d, r);
            lemma_morton_key_unique(key, again, r, b);
        },
        CurveType::Hilbert => {
        },
    }
}

} // verus!
