//! IEEE 754 binary64 values, carried by their 64-bit patterns.
//!
//! A pattern is one sign bit, eleven exponent bits and fifty-two fraction
//! bits, most significant first. The format is sign-magnitude, so the numeric
//! order of two patterns that are numbers is the order of their signed
//! magnitudes; that is the model all contracts here are stated over.
use vstd::prelude::*;

verus! {

/// The sign bit; alone it is the pattern of -0.0.
pub const SIGN_BIT: u64 = 0x8000_0000_0000_0000;

/// The pattern of +0.0.
pub const ZERO_BITS: u64 = 0;

/// The pattern of 1.0.
pub const ONE_BITS: u64 = 0x3FF0_0000_0000_0000;

/// The pattern of positive infinity: the largest magnitude that is a number.
pub const INFINITY_BITS: u64 = 0x7FF0_0000_0000_0000;

/// Whether the sign bit of `bits` is set.
pub open spec fn is_negative(bits: u64) -> bool {
    bits >= SIGN_BIT
}

/// The pattern with its sign bit cleared.
pub open spec fn magnitude(bits: u64) -> int {
    if is_negative(bits) {
        bits - SIGN_BIT
    } else {
        bits as int
    }
}

/// Whether `bits` is a NaN: all exponent bits set and a fraction that is not zero.
pub open spec fn is_nan(bits: u64) -> bool {
    magnitude(bits) > INFINITY_BITS
}

/// The signed magnitude of `bits`. Among patterns that are numbers it grows
/// exactly as the value does, and the two zeros share the key 0.
pub open spec fn order_key(bits: u64) -> int {
    if is_negative(bits) {
        -magnitude(bits)
    } else {
        magnitude(bits)
    }
}

/// Numeric `<`: false whenever either side is a NaN.
pub open spec fn num_lt(a: u64, b: u64) -> bool {
    !is_nan(a) && !is_nan(b) && order_key(a) < order_key(b)
}

/// Numeric `==`: false whenever either side is a NaN, true of the two zeros.
pub open spec fn num_eq(a: u64, b: u64) -> bool {
    !is_nan(a) && !is_nan(b) && order_key(a) == order_key(b)
}

/// Whether `bits` is a number in the closed interval from 0.0 to 1.0.
pub open spec fn in_unit_interval(bits: u64) -> bool {
    !is_nan(bits) && 0 <= order_key(bits) <= ONE_BITS
}

/// `bits` clamped to the interval from 0.0 to 1.0: what lies below becomes
/// +0.0, what lies above becomes 1.0, and a number in the interval, -0.0
/// included, is kept bit for bit. A NaN lies neither below nor above; it
/// becomes 1.0, so that the result is a number in the interval whatever
/// was given.
pub open spec fn unit_clamp(bits: u64) -> u64 {
    if is_nan(bits) {
        ONE_BITS
    } else if num_lt(bits, ZERO_BITS) {
        ZERO_BITS
    } else if num_lt(ONE_BITS, bits) {
        ONE_BITS
    } else {
        bits
    }
}

/// Tells whether `bits` is a NaN.
pub fn is_nan_bits(bits: u64) -> (nan: bool)
    ensures
        nan == is_nan(bits),
{
    if bits >= SIGN_BIT {
        bits - SIGN_BIT > INFINITY_BITS
    } else {
        bits > INFINITY_BITS
    }
}

/// Compares two patterns as numbers.
pub fn num_eq_bits(a: u64, b: u64) -> (equal: bool)
    ensures
        equal == num_eq(a, b),
{
    if is_nan_bits(a) || is_nan_bits(b) {
        false
    } else if a == b {
        true
    } else {
        let a_is_zero = a == ZERO_BITS || a == SIGN_BIT;
        let b_is_zero = b == ZERO_BITS || b == SIGN_BIT;
        a_is_zero && b_is_zero
    }
}

/// Clamps `bits` to the interval from 0.0 to 1.0; a NaN becomes 1.0.
pub fn clamp_to_unit(bits: u64) -> (clamped: u64)
    ensures
        clamped == unit_clamp(bits),
        in_unit_interval(clamped),
{
    if is_nan_bits(bits) {
        ONE_BITS
    } else if bits > SIGN_BIT {
        ZERO_BITS
    } else if bits > ONE_BITS && bits < SIGN_BIT {
        ONE_BITS
    } else {
        bits
    }
}

/// Whatever is clamped, a NaN included, the result is a number in the unit
/// interval.
pub proof fn lemma_unit_clamp_range(bits: u64)
    ensures
        in_unit_interval(unit_clamp(bits)),
        !is_nan(unit_clamp(bits)),
        is_nan(bits) ==> unit_clamp(bits) == ONE_BITS,
{
}

/// Clamping leaves exactly the numbers of the unit interval alone.
pub proof fn lemma_unit_clamp_fixed_points(bits: u64)
    ensures
        unit_clamp(bits) == bits <==> in_unit_interval(bits),
{
}

/// Clamping twice is clamping once.
pub proof fn lemma_unit_clamp_idempotent(bits: u64)
    ensures
        unit_clamp(unit_clamp(bits)) == unit_clamp(bits),
{
}

/// A clamped value equals, as a number, the input it came from exactly when
/// that input was in the unit interval already.
pub proof fn lemma_unit_clamp_keeps_unit_values(bits: u64)
    ensures
        num_eq(unit_clamp(bits), bits) <==> in_unit_interval(bits),
{
}

/// Among numbers, numeric equality is reflexive, symmetric and transitive.
pub proof fn lemma_num_eq_equivalence(a: u64, b: u64, c: u64)
    ensures
        num_eq(a, a) <==> !is_nan(a),
        num_eq(a, b) == num_eq(b, a),
        num_eq(a, b) && num_eq(b, c) ==> num_eq(a, c),
{
}

} // verus!
