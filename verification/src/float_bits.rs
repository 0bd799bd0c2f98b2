//! Order of single-precision numbers, read off their bit patterns.
//!
//! A pattern is a sign bit above 31 bits of magnitude. Magnitudes up to that
//! of infinity are numbers and grow with the pattern; larger magnitudes are
//! not numbers and compare with nothing. Both zeros are equal.

use vstd::prelude::*;

verus! {

/// The sign bit of a pattern.
pub const SIGN_BIT: u32 = 0x8000_0000;

/// The bit pattern of positive infinity, the largest magnitude of a number.
pub const INFINITY_BITS: u32 = 0x7F80_0000;

/// The pattern without its sign bit: that of the absolute value.
pub open spec fn spec_magnitude(bits: u32) -> u32 {
    if bits >= SIGN_BIT {
        (bits - SIGN_BIT) as u32
    } else {
        bits
    }
}

/// Whether the pattern is not a number.
pub open spec fn spec_is_nan(bits: u32) -> bool {
    spec_magnitude(bits) > INFINITY_BITS
}

/// The place of a number on the number line: its magnitude, negative under
/// a set sign bit.
pub open spec fn spec_key(bits: u32) -> int {
    if bits >= SIGN_BIT {
        -(spec_magnitude(bits) as int)
    } else {
        bits as int
    }
}

/// Whether both patterns are numbers and the first is less than the second.
pub open spec fn spec_less(a: u32, b: u32) -> bool {
    !spec_is_nan(a) && !spec_is_nan(b) && spec_key(a) < spec_key(b)
}

/// Whether both patterns are numbers and the first is at most the second.
pub open spec fn spec_at_most(a: u32, b: u32) -> bool {
    !spec_is_nan(a) && !spec_is_nan(b) && spec_key(a) <= spec_key(b)
}

/// The pattern of the absolute value.
pub fn magnitude(bits: u32) -> (m: u32)
    ensures
        m == spec_magnitude(bits),
        m < SIGN_BIT,
{
    if bits >= SIGN_BIT {
        bits - SIGN_BIT
    } else {
        bits
    }
}

/// Whether the pattern is not a number.
pub fn is_nan(bits: u32) -> (nan: bool)
    ensures
        nan == spec_is_nan(bits),
{
    magnitude(bits) > INFINITY_BITS
}

fn key(bits: u32) -> (k: i64)
    ensures
        k == spec_key(bits),
{
    let m: i64 = magnitude(bits) as i64;
    if bits >= SIGN_BIT {
        -m
    } else {
        m
    }
}

/// Whether the number `a` is less than the number `b`.
pub fn less(a: u32, b: u32) -> (holds: bool)
    ensures
        holds == spec_less(a, b),
{
    !is_nan(a) && !is_nan(b) && key(a) < key(b)
}

/// Whether the number `a` is at most the number `b`.
pub fn at_most(a: u32, b: u32) -> (holds: bool)
    ensures
        holds == spec_at_most(a, b),
{
    !is_nan(a) && !is_nan(b) && key(a) <= key(b)
}

/// The order is strict and total on numbers: of two numbers exactly one of
/// "the first is at most the second" and "the second is less than the first"
/// holds, and less-than carries over a middle number.
pub proof fn lemma_order(a: u32, b: u32, c: u32)
    ensures
        !spec_less(a, a),
        !spec_is_nan(a) && !spec_is_nan(b) ==> (spec_at_most(a, b) != spec_less(b, a)),
        spec_less(a, b) && spec_less(b, c) ==> spec_less(a, c),
        spec_less(a, b) ==> spec_at_most(a, b),
        spec_is_nan(a) ==> !spec_less(a, b) && !spec_less(b, a) && !spec_at_most(a, b),
{
}

/// The two zeros are equal, and a magnitude is never below zero.
pub proof fn lemma_zeros(bits: u32)
    ensures
        spec_at_most(0, SIGN_BIT) && spec_at_most(SIGN_BIT, 0),
        !spec_less(spec_magnitude(bits), 0),
        spec_magnitude(spec_magnitude(bits)) == spec_magnitude(bits),
{
}

} // verus!
