//! A model of IEEE-754 bit patterns, and the two comparisons the generator's
//! parameter checks need, computed on the bits alone.
//!
//! A 32-bit pattern `b` splits into a sign bit, an 8-bit exponent and a
//! 23-bit fraction. A finite pattern denotes the value
//! `(-1)^sign * frac * 2^-149` when the exponent is zero (subnormals), and
//! `(-1)^sign * (2^23 + frac) * 2^(exp - 150)` otherwise. Scaling every
//! finite value by `2^149` turns it into the integer [`f32_mag_scaled`]
//! (with the sign applied separately), so the order of two values becomes an
//! order of integers. An infinity is given the stand-in magnitude `2^280`,
//! beyond every finite scaled magnitude (those stay below `2^277`); a NaN is
//! ordered with nothing. 64-bit patterns are treated the same way with an
//! 11-bit exponent, a 52-bit fraction, scale `2^1074` and stand-in `2^2100`.

use vstd::prelude::*;

use vstd::arithmetic::power2::lemma2_to64;
use vstd::arithmetic::power2::lemma_pow2_adds;
use vstd::arithmetic::power2::lemma_pow2_pos;
use vstd::arithmetic::power2::lemma_pow2_strictly_increases;
use vstd::arithmetic::power2::pow2;

verus! {

/// The sign bit of a 32-bit pattern: 0 or 1.
pub open spec fn f32_sign(b: u32) -> u32 {
    b >> 31u32
}

/// The 8 exponent bits of a 32-bit pattern.
pub open spec fn f32_exp(b: u32) -> u32 {
    (b >> 23u32) & 0xffu32
}

/// The 23 fraction bits of a 32-bit pattern.
pub open spec fn f32_frac(b: u32) -> u32 {
    b & 0x7f_ffffu32
}

/// The pattern with its sign bit cleared: exponent and fraction together.
pub open spec fn f32_mag_bits(b: u32) -> u32 {
    b & 0x7fff_ffffu32
}

/// Whether the pattern denotes a NaN.
pub open spec fn f32_is_nan(b: u32) -> bool {
    f32_exp(b) == 255 && f32_frac(b) != 0
}

/// Whether the pattern denotes a finite value (neither NaN nor infinity).
pub open spec fn f32_is_finite(b: u32) -> bool {
    f32_exp(b) != 255
}

/// The denoted magnitude of a finite pattern, scaled by `2^149`.
pub open spec fn f32_mag_scaled(b: u32) -> int {
    if f32_exp(b) == 0 {
        f32_frac(b) as int
    } else {
        (0x80_0000 + f32_frac(b) as int) * (pow2((f32_exp(b) - 1) as nat) as int)
    }
}

/// The scaled magnitude, extended to infinities by the stand-in `2^280`.
pub open spec fn f32_ext_mag(b: u32) -> int {
    if f32_is_finite(b) {
        f32_mag_scaled(b)
    } else {
        pow2(280) as int
    }
}

/// The denoted value scaled by `2^149`, extended to infinities: the sign
/// applied to [`f32_ext_mag`]. Both zero patterns map to 0.
pub open spec fn f32_ext_scaled(b: u32) -> int {
    if f32_sign(b) == 1 {
        -f32_ext_mag(b)
    } else {
        f32_ext_mag(b)
    }
}

/// The IEEE-754 `<` order on two 32-bit patterns: false when either is a
/// NaN, otherwise the order of the denoted (extended) values, under which
/// the two zero patterns are equal.
pub open spec fn f32_lt(a: u32, b: u32) -> bool {
    &&& !f32_is_nan(a)
    &&& !f32_is_nan(b)
    &&& f32_ext_scaled(a) < f32_ext_scaled(b)
}

/// The magnitude bits split into exponent times `2^23` plus fraction, and
/// the fields' ranges.
proof fn lemma_f32_fields(b: u32)
    ensures
        f32_mag_bits(b) == f32_exp(b) * 0x80_0000 + f32_frac(b),
        f32_frac(b) < 0x80_0000,
        f32_exp(b) <= 255,
        f32_sign(b) == 0 || f32_sign(b) == 1,
{
    assert((b & 0x7fff_ffffu32) == ((b >> 23u32) & 0xffu32) * 0x80_0000 + (b & 0x7f_ffffu32))
        by (bit_vector);
    assert((b & 0x7f_ffffu32) < 0x80_0000) by (bit_vector);
    assert(((b >> 23u32) & 0xffu32) <= 255) by (bit_vector);
    assert((b >> 31u32) == 0 || (b >> 31u32) == 1) by (bit_vector);
}

/// A non-NaN pattern's extended magnitude is nonnegative, and zero exactly
/// when its magnitude bits are zero.
proof fn lemma_f32_mag_range(b: u32)
    requires
        !f32_is_nan(b),
    ensures
        f32_ext_mag(b) >= 0,
        (f32_ext_mag(b) == 0) <==> (f32_mag_bits(b) == 0),
{
    lemma_f32_fields(b);
    let f: int = f32_frac(b) as int;
    if f32_is_finite(b) {
        if f32_exp(b) != 0 {
            let p: int = pow2((f32_exp(b) - 1) as nat) as int;
            lemma_pow2_pos((f32_exp(b) - 1) as nat);
            assert((0x80_0000 + f) * p >= 0x80_0000) by (nonlinear_arith)
                requires
                    p >= 1,
                    f >= 0,
            ;
        }
    } else {
        lemma_pow2_pos(280);
    }
}

/// Strictly larger magnitude bits denote a strictly larger extended
/// magnitude, NaNs aside.
proof fn lemma_f32_mag_mono(a: u32, b: u32)
    requires
        !f32_is_nan(a),
        !f32_is_nan(b),
        f32_mag_bits(a) < f32_mag_bits(b),
    ensures
        f32_ext_mag(a) < f32_ext_mag(b),
{
    lemma_f32_fields(a);
    lemma_f32_fields(b);
    lemma2_to64();
    let ea: int = f32_exp(a) as int;
    let fa: int = f32_frac(a) as int;
    let eb: int = f32_exp(b) as int;
    let fb: int = f32_frac(b) as int;
    assert(ea < eb || (ea == eb && fa < fb));
    if ea == eb {
        // Equal exponents of 255 would force both fractions to 0.
        assert(f32_is_finite(a) && f32_is_finite(b));
        if ea != 0 {
            let p: int = pow2((f32_exp(a) - 1) as nat) as int;
            lemma_pow2_pos((f32_exp(a) - 1) as nat);
            assert((0x80_0000 + fa) * p < (0x80_0000 + fb) * p) by (nonlinear_arith)
                requires
                    p >= 1,
                    fa < fb,
            ;
        }
    } else {
        // ea < eb: chain through pow2(ea + 23) <= pow2(eb + 22).
        if ea != 0 {
            let pa: int = pow2((f32_exp(a) - 1) as nat) as int;
            lemma_pow2_pos((f32_exp(a) - 1) as nat);
            assert((0x80_0000 + fa) * pa < 0x100_0000 * pa) by (nonlinear_arith)
                requires
                    pa >= 1,
                    fa < 0x80_0000,
            ;
            lemma_pow2_adds(24, (ea - 1) as nat);
            assert(0x100_0000 * pa == pow2((ea + 23) as nat));
        } else {
            // ea == 0: the magnitude is the fraction, below pow2(23).
            assert(f32_ext_mag(a) == fa);
        }
        assert(f32_ext_mag(a) < pow2((ea + 23) as nat));
        if f32_is_finite(b) {
            let pb: int = pow2((f32_exp(b) - 1) as nat) as int;
            lemma_pow2_pos((f32_exp(b) - 1) as nat);
            assert((0x80_0000 + fb) * pb >= 0x80_0000 * pb) by (nonlinear_arith)
                requires
                    pb >= 0,
                    fb >= 0,
            ;
            lemma_pow2_adds(23, (eb - 1) as nat);
            assert(0x80_0000 * pb == pow2((eb + 22) as nat));
            assert(f32_ext_mag(b) >= pow2((eb + 22) as nat));
        } else {
            lemma_pow2_strictly_increases(277, 280);
            assert(f32_ext_mag(b) >= pow2((eb + 22) as nat));
        }
        if ea + 23 < eb + 22 {
            lemma_pow2_strictly_increases((ea + 23) as nat, (eb + 22) as nat);
        }
        assert(pow2((ea + 23) as nat) <= pow2((eb + 22) as nat));
    }
}

/// Equal magnitude bits denote equal extended magnitudes.
proof fn lemma_f32_mag_eq(a: u32, b: u32)
    requires
        !f32_is_nan(a),
        !f32_is_nan(b),
        f32_mag_bits(a) == f32_mag_bits(b),
    ensures
        f32_ext_mag(a) == f32_ext_mag(b),
{
    lemma_f32_fields(a);
    lemma_f32_fields(b);
    assert(f32_exp(a) == f32_exp(b) && f32_frac(a) == f32_frac(b));
}

/// The order of the magnitude bits is exactly the order of the extended
/// magnitudes, NaNs aside.
proof fn lemma_f32_mag_order(a: u32, b: u32)
    requires
        !f32_is_nan(a),
        !f32_is_nan(b),
    ensures
        (f32_mag_bits(a) < f32_mag_bits(b)) <==> (f32_ext_mag(a) < f32_ext_mag(b)),
{
    if f32_mag_bits(a) < f32_mag_bits(b) {
        lemma_f32_mag_mono(a, b);
    } else if f32_mag_bits(b) < f32_mag_bits(a) {
        lemma_f32_mag_mono(b, a);
    } else {
        lemma_f32_mag_eq(a, b);
    }
}

/// Whether a 32-bit pattern denotes a NaN.
pub fn f32_bits_is_nan(b: u32) -> (r: bool)
    ensures
        r == f32_is_nan(b),
{
    (b >> 23u32) & 0xffu32 == 255 && (b & 0x7f_ffffu32) != 0
}

/// The IEEE-754 `<` test on two 32-bit patterns, computed on the bits alone.
pub fn f32_bits_lt(a: u32, b: u32) -> (r: bool)
    ensures
        r == f32_lt(a, b),
{
    if f32_bits_is_nan(a) || f32_bits_is_nan(b) {
        false
    } else {
        proof {
            lemma_f32_fields(a);
            lemma_f32_fields(b);
            lemma_f32_mag_order(a, b);
            lemma_f32_mag_order(b, a);
            lemma_f32_mag_range(a);
            lemma_f32_mag_range(b);
        }
        let ma: u32 = a & 0x7fff_ffff;
        let mb: u32 = b & 0x7fff_ffff;
        let a_neg: bool = (a >> 31u32) == 1;
        let b_neg: bool = (b >> 31u32) == 1;
        if a_neg != b_neg {
            // A negative value lies below a positive one unless both are zeros.
            a_neg && (ma != 0 || mb != 0)
        } else if !a_neg {
            ma < mb
        } else {
            mb < ma
        }
    }
}

/// The sign bit of a 64-bit pattern: 0 or 1.
pub open spec fn f64_sign(b: u64) -> u64 {
    b >> 63u64
}

/// The 11 exponent bits of a 64-bit pattern.
pub open spec fn f64_exp(b: u64) -> u64 {
    (b >> 52u64) & 0x7ffu64
}

/// The 52 fraction bits of a 64-bit pattern.
pub open spec fn f64_frac(b: u64) -> u64 {
    b & 0xf_ffff_ffff_ffffu64
}

/// The pattern with its sign bit cleared: exponent and fraction together.
pub open spec fn f64_mag_bits(b: u64) -> u64 {
    b & 0x7fff_ffff_ffff_ffffu64
}

/// Whether the pattern denotes a NaN.
pub open spec fn f64_is_nan(b: u64) -> bool {
    f64_exp(b) == 2047 && f64_frac(b) != 0
}

/// Whether the pattern denotes a finite value (neither NaN nor infinity).
pub open spec fn f64_is_finite(b: u64) -> bool {
    f64_exp(b) != 2047
}

/// The denoted magnitude of a finite pattern, scaled by `2^1074`.
pub open spec fn f64_mag_scaled(b: u64) -> int {
    if f64_exp(b) == 0 {
        f64_frac(b) as int
    } else {
        (0x10_0000_0000_0000 + f64_frac(b) as int) * (pow2((f64_exp(b) - 1) as nat) as int)
    }
}

/// The scaled magnitude, extended to infinities by the stand-in `2^2100`.
pub open spec fn f64_ext_mag(b: u64) -> int {
    if f64_is_finite(b) {
        f64_mag_scaled(b)
    } else {
        pow2(2100) as int
    }
}

/// The denoted value scaled by `2^1074`, extended to infinities: the sign
/// applied to [`f64_ext_mag`]. Both zero patterns map to 0.
pub open spec fn f64_ext_scaled(b: u64) -> int {
    if f64_sign(b) == 1 {
        -f64_ext_mag(b)
    } else {
        f64_ext_mag(b)
    }
}

/// The IEEE-754 `>= 0.0` test on a 64-bit pattern: false on a NaN,
/// otherwise true exactly for nonnegative denoted values, the negative zero
/// pattern included.
pub open spec fn f64_ge_zero(b: u64) -> bool {
    &&& !f64_is_nan(b)
    &&& f64_ext_scaled(b) >= 0
}

/// The magnitude bits split into exponent times `2^52` plus fraction, and
/// the fields' ranges.
proof fn lemma_f64_fields(b: u64)
    ensures
        f64_mag_bits(b) == f64_exp(b) * 0x10_0000_0000_0000 + f64_frac(b),
        f64_frac(b) < 0x10_0000_0000_0000,
        f64_exp(b) <= 2047,
        f64_sign(b) == 0 || f64_sign(b) == 1,
{
    assert((b & 0x7fff_ffff_ffff_ffffu64) == ((b >> 52u64) & 0x7ffu64) * 0x10_0000_0000_0000 + (b
        & 0xf_ffff_ffff_ffffu64)) by (bit_vector);
    assert((b & 0xf_ffff_ffff_ffffu64) < 0x10_0000_0000_0000) by (bit_vector);
    assert(((b >> 52u64) & 0x7ffu64) <= 2047) by (bit_vector);
    assert((b >> 63u64) == 0 || (b >> 63u64) == 1) by (bit_vector);
}

/// A non-NaN pattern's extended magnitude is nonnegative, and zero exactly
/// when its magnitude bits are zero.
proof fn lemma_f64_mag_range(b: u64)
    requires
        !f64_is_nan(b),
    ensures
        f64_ext_mag(b) >= 0,
        (f64_ext_mag(b) == 0) <==> (f64_mag_bits(b) == 0),
{
    lemma_f64_fields(b);
    let f: int = f64_frac(b) as int;
    if f64_is_finite(b) {
        if f64_exp(b) != 0 {
            let p: int = pow2((f64_exp(b) - 1) as nat) as int;
            lemma_pow2_pos((f64_exp(b) - 1) as nat);
            assert((0x10_0000_0000_0000 + f) * p >= 0x10_0000_0000_0000) by (nonlinear_arith)
                requires
                    p >= 1,
                    f >= 0,
            ;
        }
    } else {
        lemma_pow2_pos(2100);
    }
}

/// Whether a 64-bit pattern denotes a NaN.
pub fn f64_bits_is_nan(b: u64) -> (r: bool)
    ensures
        r == f64_is_nan(b),
{
    (b >> 52u64) & 0x7ffu64 == 2047 && (b & 0xf_ffff_ffff_ffffu64) != 0
}

/// The IEEE-754 `>= 0.0` test on a 64-bit pattern, computed on the bits
/// alone.
pub fn f64_bits_ge_zero(b: u64) -> (r: bool)
    ensures
        r == f64_ge_zero(b),
{
    if f64_bits_is_nan(b) {
        false
    } else {
        proof {
            lemma_f64_fields(b);
            lemma_f64_mag_range(b);
        }
        (b >> 63u64) == 0 || (b & 0x7fff_ffff_ffff_ffff) == 0
    }
}

} // verus!
