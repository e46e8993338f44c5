//! Parameter validation and the bit-pattern comparisons, checked against
//! the hardware's own floating-point semantics.

use moons::float_bits::f32_bits_is_nan;
use moons::float_bits::f32_bits_lt;
use moons::float_bits::f64_bits_ge_zero;
use moons::float_bits::f64_bits_is_nan;
use moons::params::check_linspace_params;
use moons::params::check_moons_params;
use moons::params::ParamError;

#[test]
fn f32_lt_matches_hardware() {
    let vals: [f32; 17] = [
        0.0,
        -0.0,
        1.0,
        -1.0,
        0.5,
        -0.5,
        std::f32::consts::PI,
        1.0e-45,
        -1.0e-45,
        f32::MIN_POSITIVE,
        f32::MAX,
        f32::MIN,
        f32::INFINITY,
        f32::NEG_INFINITY,
        f32::NAN,
        2.5,
        -3.75e5,
    ];
    for &a in vals.iter() {
        for &b in vals.iter() {
            assert_eq!(f32_bits_lt(a.to_bits(), b.to_bits()), a < b);
        }
    }
}

#[test]
fn f64_ge_zero_matches_hardware() {
    let vals: [f64; 15] = [
        0.0,
        -0.0,
        1.0,
        -1.0,
        0.2,
        -0.1,
        5.0e-324,
        -5.0e-324,
        f64::MIN_POSITIVE,
        f64::MAX,
        f64::MIN,
        f64::INFINITY,
        f64::NEG_INFINITY,
        f64::NAN,
        1.0e300,
    ];
    for &v in vals.iter() {
        assert_eq!(f64_bits_ge_zero(v.to_bits()), v >= 0.0);
    }
}

#[test]
fn nan_tests_match_hardware() {
    assert!(f32_bits_is_nan(f32::NAN.to_bits()));
    assert!(!f32_bits_is_nan(1.0f32.to_bits()));
    assert!(!f32_bits_is_nan(f32::INFINITY.to_bits()));
    assert!(f64_bits_is_nan(f64::NAN.to_bits()));
    assert!(!f64_bits_is_nan(0.0f64.to_bits()));
    assert!(!f64_bits_is_nan(f64::NEG_INFINITY.to_bits()));
}

#[test]
fn linspace_params_accept_increasing_interval() {
    assert_eq!(check_linspace_params(0.0f32.to_bits(), 1.0f32.to_bits(), 5), Ok(()));
    let two_pi: f32 = 2.0 * std::f32::consts::PI;
    assert_eq!(check_linspace_params(0.0f32.to_bits(), two_pi.to_bits(), 200), Ok(()));
    assert_eq!(check_linspace_params(0.0f32.to_bits(), 1.0f32.to_bits(), 2), Ok(()));
}

#[test]
fn linspace_params_reject_reversed_interval() {
    assert_eq!(
        check_linspace_params(1.0f32.to_bits(), 0.0f32.to_bits(), 5),
        Err(ParamError::IntervalNotIncreasing)
    );
}

#[test]
fn linspace_params_reject_equal_bounds() {
    assert_eq!(
        check_linspace_params(1.0f32.to_bits(), 1.0f32.to_bits(), 5),
        Err(ParamError::IntervalNotIncreasing)
    );
}

#[test]
fn linspace_params_reject_nan_bound() {
    assert_eq!(
        check_linspace_params(f32::NAN.to_bits(), 1.0f32.to_bits(), 5),
        Err(ParamError::IntervalNotIncreasing)
    );
    assert_eq!(
        check_linspace_params(0.0f32.to_bits(), f32::NAN.to_bits(), 5),
        Err(ParamError::IntervalNotIncreasing)
    );
}

#[test]
fn linspace_params_reject_short_count() {
    assert_eq!(
        check_linspace_params(0.0f32.to_bits(), 1.0f32.to_bits(), 1),
        Err(ParamError::CountTooSmall)
    );
    assert_eq!(
        check_linspace_params(0.0f32.to_bits(), 1.0f32.to_bits(), 0),
        Err(ParamError::CountTooSmall)
    );
}

#[test]
fn moons_params_reject_single_sample() {
    assert_eq!(check_moons_params(1, 0.0f64.to_bits()), Err(ParamError::CountTooSmall));
    assert_eq!(check_moons_params(0, 0.2f64.to_bits()), Err(ParamError::CountTooSmall));
}

#[test]
fn moons_params_reject_negative_noise() {
    assert_eq!(check_moons_params(10, (-0.1f64).to_bits()), Err(ParamError::NoiseNegative));
    assert_eq!(check_moons_params(10, f64::NAN.to_bits()), Err(ParamError::NoiseNegative));
    assert_eq!(
        check_moons_params(10, f64::NEG_INFINITY.to_bits()),
        Err(ParamError::NoiseNegative)
    );
}

#[test]
fn moons_params_accept_valid_inputs() {
    assert_eq!(check_moons_params(2, 0.0f64.to_bits()), Ok(()));
    assert_eq!(check_moons_params(200, 0.20f64.to_bits()), Ok(()));
    // IEEE-754: -0.0 >= 0.0 and inf >= 0.0 both hold.
    assert_eq!(check_moons_params(10, (-0.0f64).to_bits()), Ok(()));
    assert_eq!(check_moons_params(10, f64::INFINITY.to_bits()), Ok(()));
}
