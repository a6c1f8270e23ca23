//! The width policy: which (element width, arity) pairs are legal, and how
//! wide the key of each is.

use vstd::prelude::*;

verus! {

/// Why a request to the codecs was refused.
#[derive(Clone, Copy, Debug, PartialEq, Eq, Structural)]
pub enum CodecError {
    /// The element bit width is not one of 8, 16, 32 or 64.
    InvalidElementWidth,
    /// The arity is zero or more than the element width allows.
    InvalidArity,
    /// The curve tag is neither 0 (Hilbert) nor 1 (Morton).
    InvalidEncodingType,
}

/// The element bit widths that the codecs accept.
pub open spec fn valid_element_width(b: int) -> bool {
    b == 8 || b == 16 || b == 32 || b == 64
}

/// The largest arity for an element width: as many elements as fit in 128 bits.
pub open spec fn max_arity(b: int) -> int {
    128int / b
}

/// A legal (element width, arity) pair.
pub open spec fn valid_shape(b: int, d: int) -> bool {
    valid_element_width(b) && 1 <= d <= max_arity(b)
}

/// A legal shape packs at most 128 bits.
pub proof fn lemma_shape_bound(b: int, d: int)
    requires
        valid_shape(b, d),
    ensures
        0 < b <= 64,
        0 < d <= 16,
        b * d <= 128,
{
    if b == 8 {
        assert(b * d <= 128) by (nonlinear_arith) requires b == 8, d <= 16;
    } else if b == 16 {
        assert(b * d <= 128) by (nonlinear_arith) requires b == 16, d <= 8;
    } else if b == 32 {
        assert(b * d <= 128) by (nonlinear_arith) requires b == 32, d <= 4;
    } else {
        assert(b * d <= 128) by (nonlinear_arith) requires b == 64, d <= 2;
    }
}

/// One of the key widths: 8, 16, 32, 64 or 128 bits.
pub open spec fn is_standard_width(w: int) -> bool {
    w == 8 || w == 16 || w == 32 || w == 64 || w == 128
}

/// The smallest standard width in {8, 16, 32, 64, 128} that holds `n` bits.
pub open spec fn combined_width(n: int) -> int {
    if n <= 8 {
        8
    } else if n <= 16 {
        16
    } else if n <= 32 {
        32
    } else if n <= 64 {
        64
    } else {
        128
    }
}

/// What `resolve_width` answers for an element width and an arity.
pub open spec fn width_result(b: int, d: int) -> Result<u32, CodecError> {
    if !valid_element_width(b) {
        Err(CodecError::InvalidElementWidth)
    } else if !(1 <= d <= max_arity(b)) {
        Err(CodecError::InvalidArity)
    } else {
        Ok(combined_width(d * b) as u32)
    }
}

/// Checks an element width and an arity, and gives the bit width of the key
/// that a tuple of that shape is encoded into.
pub fn resolve_width(element_bit_width: u32, arity: usize) -> (r: Result<u32, CodecError>)
    ensures
        r == width_result(element_bit_width as int, arity as int),
{
    let b = element_bit_width;
    if !(b == 8 || b == 16 || b == 32 || b == 64) {
        return Err(CodecError::InvalidElementWidth);
    }
    let max: usize = (128 / b) as usize;
    if arity < 1 || arity > max {
        return Err(CodecError::InvalidArity);
    }
    let n: u32 = (arity as u32) * b;
    assert(n as int == arity as int * b as int) by (nonlinear_arith)
        requires
            arity as int <= 128int / (b as int),
            b == 8 || b == 16 || b == 32 || b == 64,
            n == ((arity as u32) * b) as u32,
    ;
    let w: u32 = if n <= 8 {
        8
    } else if n <= 16 {
        16
    } else if n <= 32 {
        32
    } else if n <= 64 {
        64
    } else {
        128
    };
    Ok(w)
}

/// At every legal element width the largest arity is accepted and one more is
/// refused as an arity error; an element width outside 8, 16, 32 and 64 is
/// refused whatever the arity.
pub proof fn lemma_arity_boundary(b: int, d: int)
    ensures
        valid_element_width(b) ==> width_result(b, max_arity(b)) is Ok,
        valid_element_width(b) ==> width_result(b, max_arity(b) + 1) == Err::<u32, CodecError>(
            CodecError::InvalidArity,
        ),
        valid_element_width(b) ==> width_result(b, 0) == Err::<u32, CodecError>(
            CodecError::InvalidArity,
        ),
        !valid_element_width(b) ==> width_result(b, d) == Err::<u32, CodecError>(
            CodecError::InvalidElementWidth,
        ),
{
}

/// The width table: a key is 8, 16, 32, 64 or 128 bits wide, the smallest of
/// these that holds all the bits of the tuple.
pub proof fn lemma_width_is_smallest(b: int, d: int)
    requires
        valid_shape(b, d),
    ensures
        width_result(b, d) is Ok,
        d * b <= width_result(b, d)->Ok_0,
        is_standard_width(width_result(b, d)->Ok_0 as int),
        forall|w: int|
            #[trigger] is_standard_width(w) && d * b <= w ==> width_result(b, d)->Ok_0 <= w,
{
    lemma_shape_bound(b, d);
    assert(d * b == b * d) by (nonlinear_arith);
}

} // verus!
