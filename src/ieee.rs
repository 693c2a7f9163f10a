//! Ordering of IEEE-754 binary64 values, read from their bit patterns.
//!
//! A 64-bit float travels through this library as the `u64` that holds its
//! bits. The comparisons here are those of the IEEE-754 standard: every
//! comparison with a NaN is false, and the two zeros are equal.
use vstd::prelude::*;

verus! {

/// All bits but the sign.
pub const MAGNITUDE_MASK: u64 = 0x7fff_ffff_ffff_ffff;

/// Bits of positive infinity; a larger magnitude is a NaN.
pub const INFINITY_BITS: u64 = 0x7ff0_0000_0000_0000;

pub open spec fn magnitude(b: u64) -> u64 {
    b & MAGNITUDE_MASK
}

pub open spec fn is_negative_bits(b: u64) -> bool {
    b >> 63u64 == 1u64
}

pub open spec fn is_nan(b: u64) -> bool {
    magnitude(b) > INFINITY_BITS
}

pub open spec fn is_infinite(b: u64) -> bool {
    magnitude(b) == INFINITY_BITS
}

/// A key whose integer order is the order of the (non-NaN) values: the
/// magnitude bits grow with the absolute value, and the sign flips them.
pub open spec fn order_key(b: u64) -> int {
    if is_negative_bits(b) {
        -(magnitude(b) as int)
    } else {
        magnitude(b) as int
    }
}

/// `a < b` as IEEE-754 compares.
pub open spec fn lt(a: u64, b: u64) -> bool {
    !is_nan(a) && !is_nan(b) && order_key(a) < order_key(b)
}

/// `a <= b` as IEEE-754 compares.
pub open spec fn le(a: u64, b: u64) -> bool {
    !is_nan(a) && !is_nan(b) && order_key(a) <= order_key(b)
}

/// Bits of `+0.0`.
pub const ZERO_BITS: u64 = 0;

/// `+0.0` is no NaN and sits at the origin of the order.
pub proof fn lemma_zero_bits()
    ensures
        magnitude(ZERO_BITS) == 0,
        !is_negative_bits(ZERO_BITS),
        !is_nan(ZERO_BITS),
        order_key(ZERO_BITS) == 0,
{
    assert(0u64 & 0x7fff_ffff_ffff_ffffu64 == 0u64) by (bit_vector);
    assert(0u64 >> 63u64 == 0u64) by (bit_vector);
}

fn key(b: u64) -> (r: i128)
    ensures
        r as int == order_key(b),
{
    let m: u64 = b & MAGNITUDE_MASK;
    if b >> 63u64 == 1u64 {
        -(m as i128)
    } else {
        m as i128
    }
}

/// Whether the value that `b` holds is a NaN.
pub fn nan(b: u64) -> (r: bool)
    ensures
        r == is_nan(b),
{
    b & MAGNITUDE_MASK > INFINITY_BITS
}

/// Whether the value that `b` holds is an infinity, of either sign.
pub fn infinite(b: u64) -> (r: bool)
    ensures
        r == is_infinite(b),
{
    b & MAGNITUDE_MASK == INFINITY_BITS
}

/// `a < b` on the values that the bit patterns hold.
pub fn less_than(a: u64, b: u64) -> (r: bool)
    ensures
        r == lt(a, b),
{
    !nan(a) && !nan(b) && key(a) < key(b)
}

/// `a <= b` on the values that the bit patterns hold.
pub fn less_or_equal(a: u64, b: u64) -> (r: bool)
    ensures
        r == le(a, b),
{
    !nan(a) && !nan(b) && key(a) <= key(b)
}

} // verus!
