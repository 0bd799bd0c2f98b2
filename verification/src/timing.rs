//! Time between two samples.

use vstd::prelude::*;
use crate::float_bits::{less, spec_less};

verus! {

/// The time step in force for an elapsed time: the elapsed time itself where
/// it is a number above zero, and zero where time stood still, ran backwards
/// or is not a number.
pub open spec fn spec_delta_time(elapsed: u32) -> u32 {
    if spec_less(0, elapsed) {
        elapsed
    } else {
        0
    }
}

/// Gives the pattern of the time step for the pattern of the difference of
/// two timestamps.
pub fn delta_time(elapsed: u32) -> (step: u32)
    ensures
        step == spec_delta_time(elapsed),
        !spec_less(step, 0),
{
    if less(0, elapsed) {
        elapsed
    } else {
        0
    }
}

} // verus!
