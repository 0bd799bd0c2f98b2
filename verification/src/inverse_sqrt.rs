//! Integer stage of the fast approximate inverse square root.
//!
//! The approximation reads the bits of a single-precision number as a signed
//! integer, halves it, and subtracts it from a fixed constant. The bits of the
//! difference, read as a number again, are a first guess at `1 / sqrt(x)`,
//! which the caller refines with one multiply-add step.

use vstd::prelude::*;

verus! {

/// The constant from which the halved bit pattern is subtracted.
pub const INVERSE_SQRT_MAGIC: i32 = 0x5F1F1412;

/// The halved bit pattern: `bits` shifted right by one place with its sign
/// kept, which is `bits / 2` rounded down.
pub open spec fn halved(bits: int) -> int {
    bits / 2
}

/// The bit pattern of the first guess.
pub open spec fn seed(bits: int) -> int {
    INVERSE_SQRT_MAGIC - halved(bits)
}

/// Whether the first guess for `bits` fits the 32-bit pattern. It does for
/// the bits of every non-negative number.
pub open spec fn spec_seed_in_range(bits: int) -> bool {
    seed(bits) <= i32::MAX
}

/// Tests whether `inverse_sqrt_seed` may be called on `bits`.
pub fn seed_in_range(bits: i32) -> (fits: bool)
    ensures
        fits == spec_seed_in_range(bits as int),
        bits >= 0 ==> fits,
{
    bits >= -0x41C1D7DA
}

/// Computes the bit pattern of the first guess at the inverse square root of
/// the number whose bit pattern is `bits`.
pub fn inverse_sqrt_seed(bits: i32) -> (guess: i32)
    requires
        spec_seed_in_range(bits as int),
    ensures
        guess == seed(bits as int),
{
    let half: i32 = bits >> 1;
    assert(bits >> 1 == bits / 2) by (bit_vector);
    INVERSE_SQRT_MAGIC - half
}

/// For non-negative numbers the first guess is the bit pattern of a positive
/// finite number, and a larger number never gets a larger guess.
pub proof fn lemma_seed_positive_decreasing(smaller: int, larger: int)
    requires
        0 <= smaller <= larger <= i32::MAX,
    ensures
        0 < seed(larger) <= seed(smaller) <= INVERSE_SQRT_MAGIC,
        seed(smaller) < 0x7F80_0000,
        spec_seed_in_range(smaller),
        spec_seed_in_range(larger),
{
}

} // verus!
