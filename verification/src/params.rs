//! Validation of the generator's parameters, over the IEEE-754 bit
//! patterns of its floating-point arguments.

use vstd::prelude::*;

use crate::float_bits::f32_lt;
use crate::float_bits::f32_bits_lt;
use crate::float_bits::f64_ge_zero;
use crate::float_bits::f64_bits_ge_zero;

verus! {

/// The ways the generator's parameters can be invalid.
#[derive(Clone, Copy, Debug, PartialEq, Eq, Structural)]
pub enum ParamError {
    /// The interval's lower bound does not lie strictly below its upper
    /// bound (also raised when a bound is a NaN).
    IntervalNotIncreasing,
    /// Fewer than two samples were asked for.
    CountTooSmall,
    /// The noise standard deviation is negative (or a NaN).
    NoiseNegative,
}

/// Validates the evenly-spaced-sequence parameters: the bounds (as 32-bit
/// IEEE-754 bit patterns) must be strictly increasing, and at least two
/// samples must be asked for. The bounds are checked first.
pub fn check_linspace_params(x1_bits: u32, x2_bits: u32, n: usize) -> (r: Result<(), ParamError>)
    ensures
        r is Ok <==> f32_lt(x1_bits, x2_bits) && n >= 2,
        r == Err::<(), ParamError>(ParamError::IntervalNotIncreasing) <==> !f32_lt(
            x1_bits,
            x2_bits,
        ),
        r == Err::<(), ParamError>(ParamError::CountTooSmall) <==> f32_lt(x1_bits, x2_bits) && n
            < 2,
{
    if !f32_bits_lt(x1_bits, x2_bits) {
        Err(ParamError::IntervalNotIncreasing)
    } else if n < 2 {
        Err(ParamError::CountTooSmall)
    } else {
        Ok(())
    }
}

/// Validates the moons-generator parameters: at least two samples, and a
/// noise standard deviation (as a 64-bit IEEE-754 bit pattern) at least
/// zero. The sample count is checked first.
pub fn check_moons_params(n_samples: usize, noise_bits: u64) -> (r: Result<(), ParamError>)
    ensures
        r is Ok <==> n_samples >= 2 && f64_ge_zero(noise_bits),
        r == Err::<(), ParamError>(ParamError::CountTooSmall) <==> n_samples < 2,
        r == Err::<(), ParamError>(ParamError::NoiseNegative) <==> n_samples >= 2 && !f64_ge_zero(
            noise_bits,
        ),
{
    if n_samples < 2 {
        Err(ParamError::CountTooSmall)
    } else if !f64_bits_ge_zero(noise_bits) {
        Err(ParamError::NoiseNegative)
    } else {
        Ok(())
    }
}

} // verus!
