//! Clamp of the safe arcsine, on bit patterns.
//!
//! The arcsine is defined on `[-1, 1]`. The safe arcsine extends it to every
//! number: at or beyond one it is a quarter turn, at or beyond minus one it
//! is minus a quarter turn. Which of these holds is decided here on the bit
//! pattern of the single-precision argument; inside the range, and for
//! patterns that are not numbers, the caller's arcsine gives the result.

use vstd::prelude::*;
use crate::float_bits::{spec_at_most, spec_is_nan, INFINITY_BITS, SIGN_BIT};

verus! {

/// The bit pattern of 1.
pub const ONE_BITS: u32 = 0x3F80_0000;

/// The bit pattern of half of pi, a quarter turn in radians.
pub const HALF_PI_BITS: u32 = 0x3FC9_0FDB;

/// The bit pattern of the number with the opposite sign.
pub open spec fn negated(bits: u32) -> u32 {
    if bits >= SIGN_BIT {
        (bits - SIGN_BIT) as u32
    } else {
        (bits + SIGN_BIT) as u32
    }
}

/// Whether `bits` is the pattern of a number that is 1 or more, positive
/// infinity included.
pub open spec fn at_least_one(bits: u32) -> bool {
    ONE_BITS <= bits <= INFINITY_BITS
}

/// Whether `bits` is the pattern of a number that is -1 or less, negative
/// infinity included.
pub open spec fn at_most_minus_one(bits: u32) -> bool {
    ONE_BITS + SIGN_BIT <= bits <= INFINITY_BITS + SIGN_BIT
}

/// The result that the clamp fixes for the argument `bits`: minus a quarter
/// turn at or below -1, a quarter turn at or above 1, and none for a number
/// strictly between them or a pattern that is not a number.
pub open spec fn spec_asin_clamp(bits: u32) -> Option<u32> {
    if at_most_minus_one(bits) {
        Some(negated(HALF_PI_BITS))
    } else if at_least_one(bits) {
        Some(HALF_PI_BITS)
    } else {
        None
    }
}

/// The safe arcsine of the argument `bits`, where `inner` is the pattern
/// that the arcsine itself gives for it.
pub open spec fn spec_asin_safe(bits: u32, inner: u32) -> u32 {
    match spec_asin_clamp(bits) {
        Some(fixed) => fixed,
        None => inner,
    }
}

/// Decides whether the safe arcsine of the number with pattern `bits` is
/// fixed by the clamp, and to which pattern.
pub fn asin_clamp(bits: u32) -> (fixed: Option<u32>)
    ensures
        fixed == spec_asin_clamp(bits),
{
    if 0xBF80_0000 <= bits && bits <= 0xFF80_0000 {
        Some(0xBFC9_0FDB)
    } else if ONE_BITS <= bits && bits <= INFINITY_BITS {
        Some(HALF_PI_BITS)
    } else {
        None
    }
}

/// The pattern of the safe arcsine of the number with pattern `bits`, given
/// the pattern `inner` of its arcsine.
pub fn asin_safe_bits(bits: u32, inner: u32) -> (angle: u32)
    ensures
        angle == spec_asin_safe(bits, inner),
        at_least_one(bits) ==> angle == HALF_PI_BITS,
        at_most_minus_one(bits) ==> angle == negated(HALF_PI_BITS),
        !at_least_one(bits) && !at_most_minus_one(bits) ==> angle == inner,
{
    match asin_clamp(bits) {
        Some(fixed) => fixed,
        None => inner,
    }
}

/// Changing the sign twice gives the pattern back.
pub proof fn lemma_negated_twice(bits: u32)
    ensures
        negated(negated(bits)) == bits,
{
}

/// The clamp is odd: the opposite number is clamped exactly when the number
/// is, to the opposite result.
pub proof fn lemma_clamp_odd(bits: u32)
    ensures
        spec_asin_clamp(negated(bits)) == match spec_asin_clamp(bits) {
            Some(fixed) => Some(negated(fixed)),
            None => None,
        },
{
}

/// The safe arcsine is odd wherever the arcsine is: if the arcsine of the
/// opposite number is the opposite of the arcsine, the same holds of the safe
/// arcsine, and on clamped arguments it holds whatever the arcsine gives.
pub proof fn lemma_asin_safe_odd(bits: u32, inner: u32, inner_of_negated: u32)
    requires
        spec_asin_clamp(bits) is None ==> inner_of_negated == negated(inner),
    ensures
        spec_asin_safe(negated(bits), inner_of_negated) == negated(spec_asin_safe(bits, inner)),
{
}

/// A clamped result is a quarter turn in size, and the arcsine's own result
/// plays no part in it.
pub proof fn lemma_clamped_is_quarter_turn(bits: u32, inner: u32, other: u32)
    requires
        spec_asin_clamp(bits) is Some,
    ensures
        spec_asin_safe(bits, inner) == HALF_PI_BITS || spec_asin_safe(bits, inner) == negated(
            HALF_PI_BITS,
        ),
        spec_asin_safe(bits, inner) == spec_asin_safe(bits, other),
        (spec_asin_safe(bits, inner) == HALF_PI_BITS) == (bits < SIGN_BIT),
{
}

/// The clamp agrees with the order of numbers: an argument is clamped upwards
/// exactly when one is at most the argument, and downwards exactly when the
/// argument is at most minus one.
pub proof fn lemma_clamp_follows_order(bits: u32)
    ensures
        at_least_one(bits) == spec_at_most(ONE_BITS, bits),
        at_most_minus_one(bits) == spec_at_most(bits, negated(ONE_BITS)),
        spec_is_nan(bits) ==> spec_asin_clamp(bits) is None,
{
}

/// A pattern that is not a number is never clamped: the safe arcsine hands
/// on what the arcsine gives for it.
pub proof fn lemma_not_a_number_passes(bits: u32, inner: u32)
    requires
        INFINITY_BITS < bits < SIGN_BIT || INFINITY_BITS + SIGN_BIT < bits,
    ensures
        spec_asin_clamp(bits) is None,
        spec_asin_safe(bits, inner) == inner,
{
}

} // verus!
