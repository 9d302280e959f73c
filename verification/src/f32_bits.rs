//! IEEE-754 binary32 values carried as their bit patterns.
//!
//! A reading of type `f32` is held here as the `u32` that `f32::to_bits`
//! gives for it. The spec functions below state, over that bit pattern, the
//! IEEE-754 comparisons that the sampling rules need.

use vstd::prelude::*;

verus! {

/// Bit pattern of `+0.0`.
pub const POSITIVE_ZERO: u32 = 0;

/// Bit pattern of `+inf`.
pub const POSITIVE_INFINITY: u32 = 0x7F80_0000;

/// The sign bit of a binary32 value.
pub const SIGN_BIT: u32 = 0x8000_0000;

/// The bit pattern encodes a NaN: every exponent bit set and a non-zero
/// fraction, with either sign.
pub open spec fn spec_is_nan(bits: u32) -> bool {
    bits % 0x8000_0000 > 0x7F80_0000
}

/// The bit pattern encodes `+0.0` or `-0.0`.
pub open spec fn spec_is_zero(bits: u32) -> bool {
    bits % 0x8000_0000 == 0
}

/// The sign bit is set.
pub open spec fn spec_sign_set(bits: u32) -> bool {
    bits >= 0x8000_0000
}

/// IEEE-754 `a < b` on the values encoded by the two bit patterns: false when
/// either is a NaN; the two zeros compare equal; among non-negative values the
/// bit pattern grows with the value, among negative ones it shrinks.
pub open spec fn spec_less_than(a: u32, b: u32) -> bool {
    &&& !spec_is_nan(a)
    &&& !spec_is_nan(b)
    &&& !(spec_is_zero(a) && spec_is_zero(b))
    &&& if !spec_sign_set(a) && !spec_sign_set(b) {
        a < b
    } else if spec_sign_set(a) && spec_sign_set(b) {
        a > b
    } else {
        spec_sign_set(a)
    }
}

/// IEEE-754 `x > 0.0`: `x` is positive, finite or `+inf`.
pub open spec fn spec_is_positive(bits: u32) -> bool {
    0 < bits <= 0x7F80_0000
}

/// An unsigned key whose order is the IEEE-754 order of the encoded values:
/// both zeros share one key, negative values lie below it and positive values
/// above it. A positive NaN lies above `+inf`, a negative NaN below `-inf`.
pub open spec fn spec_order_key(bits: u32) -> u32 {
    if spec_is_zero(bits) {
        0x8000_0000
    } else if spec_sign_set(bits) {
        (0xFFFF_FFFFu32 - bits) as u32
    } else {
        (bits + 0x8000_0000u32) as u32
    }
}

/// Whether the encoded value compares greater than `0.0`.
pub fn is_positive(bits: u32) -> (positive: bool)
    ensures
        positive == spec_is_positive(bits),
        positive == spec_less_than(POSITIVE_ZERO, bits),
{
    POSITIVE_ZERO < bits && bits <= POSITIVE_INFINITY
}

/// The ordering key of the encoded value (see [`spec_order_key`]).
pub fn order_key(bits: u32) -> (key: u32)
    ensures
        key == spec_order_key(bits),
{
    if bits % SIGN_BIT == 0 {
        SIGN_BIT
    } else if bits >= SIGN_BIT {
        0xFFFF_FFFFu32 - bits
    } else {
        bits + SIGN_BIT
    }
}

/// For values that are not NaN, comparing the keys is comparing the values.
pub proof fn lemma_order_key_is_float_order(a: u32, b: u32)
    requires
        !spec_is_nan(a),
        !spec_is_nan(b),
    ensures
        spec_order_key(a) < spec_order_key(b) <==> spec_less_than(a, b),
        spec_order_key(a) == spec_order_key(b) <==> (a == b || (spec_is_zero(a) && spec_is_zero(b))),
{
}

} // verus!
