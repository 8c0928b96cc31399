//! Levels as bit patterns.
//!
//! A level is a single-precision number in the IEEE 754 binary32 format, and
//! this library holds it as the 32 bits of that format: the sign in the top
//! bit, the magnitude (exponent and fraction) below it. Comparing two numbers
//! and clamping one into the unit range need nothing but those bits, so both
//! are decided here; arithmetic on levels is left to the caller.

use vstd::prelude::*;

verus! {

/// The pattern of 0.0.
pub const ZERO_BITS: u32 = 0;

/// The pattern of 1.0.
pub const ONE_BITS: u32 = 0x3f80_0000;

/// The pattern of positive infinity: the largest magnitude that is a number.
pub const INFINITY_BITS: u32 = 0x7f80_0000;

/// The value of the sign bit.
pub const SIGN_BIT: u32 = 0x8000_0000;

/// The pattern without its sign bit.
pub open spec fn magnitude(bits: u32) -> int {
    if bits >= SIGN_BIT {
        bits - SIGN_BIT
    } else {
        bits as int
    }
}

/// Whether the sign bit is set: a negative number, or negative zero.
pub open spec fn sign_set(bits: u32) -> bool {
    bits >= SIGN_BIT
}

/// Whether the pattern is not a number: its magnitude lies above infinity's.
pub open spec fn is_nan(bits: u32) -> bool {
    magnitude(bits) > INFINITY_BITS
}

/// The order of the numbers that two patterns stand for: `a < b`.
///
/// Nothing compares with a pattern that is not a number, and the two zeros
/// are equal. Otherwise a set sign bit is less than a clear one; of two
/// numbers without sign the one of smaller magnitude is less, and of two with
/// sign the one of larger magnitude.
pub open spec fn less_than(a: u32, b: u32) -> bool {
    &&& !is_nan(a)
    &&& !is_nan(b)
    &&& !(magnitude(a) == 0 && magnitude(b) == 0)
    &&& if sign_set(a) {
        !sign_set(b) || magnitude(a) > magnitude(b)
    } else {
        !sign_set(b) && magnitude(a) < magnitude(b)
    }
}

/// The patterns of the numbers from 0.0 to 1.0: those a published level may
/// take. Negative zero is not among them.
pub open spec fn in_unit_range(bits: u32) -> bool {
    bits <= ONE_BITS
}

/// The level that a raw, amplified reading settles to: 1.0 where it exceeds
/// 1.0 or is not a number, 0.0 where it is negative or negative zero, and
/// itself otherwise.
pub open spec fn clamped(bits: u32) -> u32 {
    if is_nan(bits) || less_than(ONE_BITS, bits) {
        ONE_BITS
    } else if sign_set(bits) {
        ZERO_BITS
    } else {
        bits
    }
}

/// Whether the pattern is not a number.
pub fn is_not_a_number(bits: u32) -> (nan: bool)
    ensures
        nan == is_nan(bits),
{
    if bits >= SIGN_BIT {
        bits - SIGN_BIT > INFINITY_BITS
    } else {
        bits > INFINITY_BITS
    }
}

/// Whether the number that `a` stands for is less than the one that `b`
/// stands for.
pub fn is_less_than(a: u32, b: u32) -> (less: bool)
    ensures
        less == less_than(a, b),
{
    if is_not_a_number(a) || is_not_a_number(b) {
        return false;
    }
    let a_signed = a >= SIGN_BIT;
    let b_signed = b >= SIGN_BIT;
    let a_magnitude: u32 = if a_signed {
        a - SIGN_BIT
    } else {
        a
    };
    let b_magnitude: u32 = if b_signed {
        b - SIGN_BIT
    } else {
        b
    };
    if a_magnitude == 0 && b_magnitude == 0 {
        false
    } else if a_signed {
        !b_signed || a_magnitude > b_magnitude
    } else {
        !b_signed && a_magnitude < b_magnitude
    }
}

/// Whether the pattern stands for a number from 0.0 to 1.0.
pub fn is_in_unit_range(bits: u32) -> (inside: bool)
    ensures
        inside == in_unit_range(bits),
{
    bits <= ONE_BITS
}

/// Clamps an amplified reading into the unit range.
///
/// The result is always a level. A reading above 1.0 becomes 1.0, and a
/// reading that already is a level comes back as it is.
pub fn clamp_to_unit(bits: u32) -> (level: u32)
    ensures
        level == clamped(bits),
        in_unit_range(level),
        less_than(ONE_BITS, bits) ==> level == ONE_BITS,
        in_unit_range(bits) ==> level == bits,
{
    if is_not_a_number(bits) || is_less_than(ONE_BITS, bits) {
        ONE_BITS
    } else if bits >= SIGN_BIT {
        ZERO_BITS
    } else {
        bits
    }
}

/// The unit range, said through the order: a pattern is a level exactly when
/// it is a number with a clear sign bit that 1.0 is not less than.
pub proof fn lemma_unit_range_by_order(bits: u32)
    ensures
        in_unit_range(bits) <==> !is_nan(bits) && !sign_set(bits) && !less_than(ONE_BITS, bits),
        in_unit_range(bits) ==> !less_than(bits, ZERO_BITS),
{
}

/// Clamping twice is clamping once.
pub proof fn lemma_clamp_idempotent(bits: u32)
    ensures
        clamped(clamped(bits)) == clamped(bits),
        in_unit_range(clamped(bits)),
{
}

/// Clamping keeps the order: of two numbers, the clamped lesser one is never
/// above the clamped greater one.
pub proof fn lemma_clamp_monotonic(a: u32, b: u32)
    requires
        less_than(a, b),
    ensures
        !less_than(clamped(b), clamped(a)),
{
}

/// The order is strict: no number is less than itself, no two are each less
/// than the other, and less-than carries over a number in between.
pub proof fn lemma_order_is_strict(a: u32, b: u32, c: u32)
    ensures
        !less_than(a, a),
        less_than(a, b) ==> !less_than(b, a),
        less_than(a, b) && less_than(b, c) ==> less_than(a, c),
{
}

/// Among levels the order of the numbers is the order of their patterns.
pub proof fn lemma_levels_order_as_patterns(a: u32, b: u32)
    requires
        in_unit_range(a),
        in_unit_range(b),
    ensures
        less_than(a, b) <==> a < b,
{
}

} // verus!
