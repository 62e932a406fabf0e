//! Single-precision values as bit patterns.
//!
//! Samples, amplitudes and volumes cross this library as the 32-bit IEEE 754
//! pattern of the value (what `to_bits` gives), so that everything here is
//! integer arithmetic. This module holds the few facts about such patterns
//! that the rest of the library relies on: which patterns are NaN, what the
//! magnitude of a pattern is, and how patterns are ordered as numbers.

use vstd::prelude::*;

verus! {

/// The sign bit of a pattern.
pub const SIGN_BIT: u32 = 0x8000_0000;

/// The pattern of positive infinity. A magnitude above it is a NaN.
pub const INFINITY_BITS: u32 = 0x7F80_0000;

/// The pattern of `1.0`.
pub const ONE_BITS: u32 = 0x3F80_0000;

/// The pattern of `+0.0`.
pub const ZERO_BITS: u32 = 0;

/// The pattern with the sign bit cleared: the pattern of the absolute value.
pub open spec fn magnitude(bits: u32) -> u32 {
    if bits >= SIGN_BIT {
        (bits - SIGN_BIT) as u32
    } else {
        bits
    }
}

/// Whether the pattern is a NaN (quiet or signalling, either sign).
pub open spec fn is_nan(bits: u32) -> bool {
    magnitude(bits) > INFINITY_BITS
}

/// Position of a pattern in the numeric order. For two patterns that are not
/// NaN, the first is numerically less than the second exactly when its rank
/// is smaller, and they are numerically equal exactly when their ranks are
/// equal (so `-0.0` and `+0.0` share rank 0).
pub open spec fn rank(bits: u32) -> int {
    if bits >= SIGN_BIT {
        -(magnitude(bits) as int)
    } else {
        bits as int
    }
}

/// Whether the pattern is a number between `0.0` and `1.0`, bounds included.
/// No NaN is.
pub open spec fn in_unit(bits: u32) -> bool {
    !is_nan(bits) && rank(ZERO_BITS) <= rank(bits) <= rank(ONE_BITS)
}

/// The pattern clamped to the interval from `0.0` to `1.0`: a value below
/// `0.0` becomes `+0.0`, a value above `1.0` becomes `1.0`, and a value in
/// the interval, `-0.0` included, stays as it is. A NaN, which has no place
/// in the order, becomes `+0.0`: what is clamped is always in the interval.
pub open spec fn clamp_unit(bits: u32) -> u32 {
    if is_nan(bits) {
        ZERO_BITS
    } else if rank(bits) < rank(ZERO_BITS) {
        ZERO_BITS
    } else if rank(bits) > rank(ONE_BITS) {
        ONE_BITS
    } else {
        bits
    }
}

/// Clears the sign bit.
pub fn abs_bits(bits: u32) -> (m: u32)
    ensures
        m == magnitude(bits),
        m < SIGN_BIT,
{
    if bits >= SIGN_BIT {
        bits - SIGN_BIT
    } else {
        bits
    }
}

/// Tells whether the pattern is a NaN.
pub fn is_nan_bits(bits: u32) -> (nan: bool)
    ensures
        nan == is_nan(bits),
{
    abs_bits(bits) > INFINITY_BITS
}

/// Clamps a pattern to the interval from `0.0` to `1.0`. A NaN gives `+0.0`.
pub fn clamp_to_unit(bits: u32) -> (out: u32)
    ensures
        out == clamp_unit(bits),
        in_unit(out),
{
    if is_nan_bits(bits) {
        ZERO_BITS
    } else if bits > SIGN_BIT {
        ZERO_BITS
    } else if bits < SIGN_BIT && bits > ONE_BITS {
        ONE_BITS
    } else {
        bits
    }
}

/// Whatever is clamped, a NaN or an infinity included, the result is a
/// number between `0.0` and `1.0`, bounds included.
pub proof fn lemma_clamp_unit_in_range(bits: u32)
    ensures
        in_unit(clamp_unit(bits)),
        !is_nan(clamp_unit(bits)),
        rank(ZERO_BITS) <= rank(clamp_unit(bits)) <= rank(ONE_BITS),
{
}

/// A value that already lies in the interval is not changed, and clamping
/// twice is clamping once.
pub proof fn lemma_clamp_unit_fixed(bits: u32)
    ensures
        in_unit(bits) ==> clamp_unit(bits) == bits,
        clamp_unit(clamp_unit(bits)) == clamp_unit(bits),
{
}

} // verus!
