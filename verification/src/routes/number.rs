//! Checks on numbers entered by users.
//!
//! Numbers arrive as IEEE-754 binary64 values; the library receives each
//! one as its bit pattern (what `f64::to_bits` gives), and decides on that
//! pattern exactly as the floating-point comparisons would.
use vstd::prelude::*;

verus! {

/// Bit pattern of positive infinity; every larger pattern with the sign bit
/// clear is a NaN.
pub const POSITIVE_INFINITY_BITS: u64 = 0x7FF0_0000_0000_0000;

/// Bit pattern of negative zero, the first pattern with the sign bit set.
pub const NEGATIVE_ZERO_BITS: u64 = 0x8000_0000_0000_0000;

/// Bit pattern of negative infinity; every larger pattern is a NaN.
pub const NEGATIVE_INFINITY_BITS: u64 = 0xFFF0_0000_0000_0000;

/// The number is finite and strictly greater than zero
/// (`value.is_finite() && value > 0.0`): the sign bit is clear, the pattern
/// is not `+0.0`, and the exponent is not all ones (infinity or NaN).
pub open spec fn is_finite_positive(bits: u64) -> bool {
    0 < bits && bits < POSITIVE_INFINITY_BITS
}

/// The comparison `value <= 0.0` holds: the value is `+0.0`, or has the sign
/// bit set and is not a NaN (negative zero, negative numbers, negative
/// infinity).
pub open spec fn is_at_most_zero(bits: u64) -> bool {
    bits == 0 || (NEGATIVE_ZERO_BITS <= bits && bits <= NEGATIVE_INFINITY_BITS)
}

/// Decides `value.is_finite() && value > 0.0` on the value's bit pattern.
pub fn finite_positive(bits: u64) -> (b: bool)
    ensures
        b == is_finite_positive(bits),
{
    0 < bits && bits < POSITIVE_INFINITY_BITS
}

/// Decides `value <= 0.0` on the value's bit pattern.
pub fn at_most_zero(bits: u64) -> (b: bool)
    ensures
        b == is_at_most_zero(bits),
{
    bits == 0 || (NEGATIVE_ZERO_BITS <= bits && bits <= NEGATIVE_INFINITY_BITS)
}

/// Every number accepted as finite and positive also passes the weaker
/// `> 0` test used by the HTML forms.
pub proof fn lemma_finite_positive_is_not_at_most_zero(bits: u64)
    requires
        is_finite_positive(bits),
    ensures
        !is_at_most_zero(bits),
{
}

/// In terms of the binary64 fields (sign bit, 11-bit exponent, 52-bit
/// fraction): a value is finite and positive exactly when its sign is clear,
/// its exponent is not all ones (infinity, NaN), and it is not zero.
pub proof fn lemma_finite_positive_by_fields(bits: u64)
    ensures
        is_finite_positive(bits) <==> ((bits >> 63u64) == 0 && ((bits >> 52u64) & 0x7FF) != 0x7FF
            && bits != 0),
{
    assert(((bits >> 63u64) == 0 && ((bits >> 52u64) & 0x7FF) != 0x7FF && bits != 0) <==> (0
        < bits && bits < 0x7FF0_0000_0000_0000u64)) by (bit_vector);
}

/// In terms of the binary64 fields: `value <= 0.0` holds exactly for zero
/// of either sign and for values with the sign set that are not NaN
/// (exponent all ones with a non-zero fraction).
pub proof fn lemma_at_most_zero_by_fields(bits: u64)
    ensures
        is_at_most_zero(bits) <==> ((bits & 0x7FFF_FFFF_FFFF_FFFF) == 0 || ((bits >> 63u64) == 1
            && !(((bits >> 52u64) & 0x7FF) == 0x7FF && (bits & 0x000F_FFFF_FFFF_FFFF) != 0))),
{
    assert(((bits & 0x7FFF_FFFF_FFFF_FFFF) == 0 || ((bits >> 63u64) == 1 && !(((bits >> 52u64)
        & 0x7FF) == 0x7FF && (bits & 0x000F_FFFF_FFFF_FFFF) != 0))) <==> (bits == 0 || (
    0x8000_0000_0000_0000u64 <= bits && bits <= 0xFFF0_0000_0000_0000u64))) by (bit_vector);
}

} // verus!
