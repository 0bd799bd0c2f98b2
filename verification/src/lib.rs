//! Discrete core of an attitude and heading reference system.
//!
//! The arithmetic of sensor fusion (vectors, quaternions, gains) works on
//! floating point and lives with the caller. What is decided per sample is
//! discrete and lives here, on flags, counters and the bit patterns of
//! single-precision numbers: which axes a frame convention refers to, where
//! the arcsine is clamped, when the gyroscope bias filter may run, when a
//! sensor's feedback is rejected or force-accepted, and which gain is in
//! force.

pub mod ahrs;
pub mod asin;
pub mod convention;
pub mod float_bits;
pub mod inverse_sqrt;
pub mod offset;
pub mod recovery;
pub mod timing;

pub use ahrs::{
    gain_settled, gyroscope_saturated, AhrsFlags, FeedbackPlan, GainSource, RampAction, SampleEvent,
};
pub use asin::{asin_clamp, asin_safe_bits, HALF_PI_BITS, ONE_BITS};
pub use convention::{Axis, FusionConvention};
pub use float_bits::{at_most, is_nan, less, magnitude, INFINITY_BITS, SIGN_BIT};
pub use inverse_sqrt::{inverse_sqrt_seed, seed_in_range, INVERSE_SQRT_MAGIC};
pub use offset::{is_moving, StillnessTimer, STILLNESS_SECONDS, STILLNESS_THRESHOLD_BITS};
pub use recovery::{judge, Reading, RecoveryGate, RecoveryMode};
pub use timing::delta_time;
