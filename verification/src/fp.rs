//! Arithmetic on IEEE-754 double-precision values, carried as `u64` bit
//! patterns. The verified pipeline never looks inside a bit pattern: every
//! operation is performed by an outside library and its result is named by
//! an uninterpreted spec function of the operand patterns. All the named
//! operations are deterministic functions of their arguments: the basic
//! operations are fixed by IEEE-754, and the transcendental ones are the
//! pure-Rust `libm` routines.

use vstd::prelude::*;
use rustc_apfloat::Float;
use rustc_apfloat::ieee::Double;

verus! {

/// Bit pattern of 0.5109989461, the positron rest mass in MeV.
pub const ME_BITS: u64 = 0x3FE05A1A76394768;
/// Bit pattern of 1.6735575e-24, the mass of a neutral hydrogen atom in g.
pub const MH_BITS: u64 = 0x3B002F8715AE9E84;
/// Bit pattern of 0.1, the reference hydrogen number density in cm^-3.
pub const TENTH_BITS: u64 = 0x3FB999999999999A;
/// Bit pattern of 7.6e-26, the collisional coefficient at density 0.1.
pub const COEFF_BITS: u64 = 0x3AB78557213FA753;
/// Bit pattern of 6.6, the additive term beside the logarithm.
pub const SIX_SIX_BITS: u64 = 0x401A666666666666;
/// Bit pattern of 1.0.
pub const ONE_BITS: u64 = 0x3FF0000000000000;
/// Bit pattern of 10.0, the base of the output energy grid.
pub const TEN_BITS: u64 = 0x4024000000000000;
/// Bit pattern of -2.0, the lower log-energy bound of the output grid.
pub const NEG_TWO_BITS: u64 = 0xC000000000000000;
/// Bit pattern of 4.0, the upper log-energy bound of the output grid.
pub const FOUR_BITS: u64 = 0x4010000000000000;

/// The IEEE-754 double sum of the two values with these bit patterns.
pub uninterp spec fn fp_sum(a: u64, b: u64) -> u64;

/// The IEEE-754 double difference of the two values with these bit patterns.
pub uninterp spec fn fp_diff(a: u64, b: u64) -> u64;

/// The IEEE-754 double product of the two values with these bit patterns.
pub uninterp spec fn fp_prod(a: u64, b: u64) -> u64;

/// The IEEE-754 double quotient of the two values with these bit patterns.
pub uninterp spec fn fp_quot(a: u64, b: u64) -> u64;

/// The IEEE-754 double square root of the value with this bit pattern.
pub uninterp spec fn fp_sqrt_of(a: u64) -> u64;

/// The natural logarithm, as `libm::log` computes it.
pub uninterp spec fn fp_ln_of(a: u64) -> u64;

/// The base-10 logarithm, as `libm::log10` computes it.
pub uninterp spec fn fp_log10_of(a: u64) -> u64;

/// `a` raised to the power `b`, as `libm::pow` computes it.
pub uninterp spec fn fp_pow_of(a: u64, b: u64) -> u64;

/// Whether the double with pattern `a` compares strictly below the one
/// with pattern `b`; false whenever either is a NaN.
pub uninterp spec fn fp_lt_cmp(a: u64, b: u64) -> bool;

/// The IEEE-754 double nearest to the integer `n` (exact for `n < 2^53`).
pub uninterp spec fn fp_of_int(n: u64) -> u64;

/// What `str::parse` of a double returns on this text, as a bit pattern;
/// `None` where the text is not a valid decimal floating-point literal.
pub uninterp spec fn double_of_text(s: Seq<u8>) -> Option<u64>;

/// Relies on rustc_apfloat's IEEE-754 double addition (round to nearest even).
#[verifier::external_body]
pub(crate) fn f_add(a: u64, b: u64) -> (r: u64)
    ensures
        r == fp_sum(a, b),
{
    let x = Double::from_bits(a as u128);
    let y = Double::from_bits(b as u128);
    (x + y).value.to_bits() as u64
}

/// Relies on rustc_apfloat's IEEE-754 double subtraction.
#[verifier::external_body]
pub(crate) fn f_sub(a: u64, b: u64) -> (r: u64)
    ensures
        r == fp_diff(a, b),
{
    let x = Double::from_bits(a as u128);
    let y = Double::from_bits(b as u128);
    (x - y).value.to_bits() as u64
}

/// Relies on rustc_apfloat's IEEE-754 double multiplication. Multiplying
/// by 1.0 returns the other operand unchanged; the clause below states
/// that for the one pattern the contracts need.
#[verifier::external_body]
pub(crate) fn f_mul(a: u64, b: u64) -> (r: u64)
    ensures
        r == fp_prod(a, b),
        a == ONE_BITS && b == COEFF_BITS ==> r == COEFF_BITS,
{
    let x = Double::from_bits(a as u128);
    let y = Double::from_bits(b as u128);
    (x * y).value.to_bits() as u64
}

/// Relies on rustc_apfloat's IEEE-754 double division. Dividing a finite
/// non-zero value by itself yields exactly 1.0; the clause below states
/// that for the one pattern the contracts need.
#[verifier::external_body]
pub(crate) fn f_div(a: u64, b: u64) -> (r: u64)
    ensures
        r == fp_quot(a, b),
        a == TENTH_BITS && b == TENTH_BITS ==> r == ONE_BITS,
{
    let x = Double::from_bits(a as u128);
    let y = Double::from_bits(b as u128);
    (x / y).value.to_bits() as u64
}

/// Relies on `libm::sqrt`, the IEEE-754 correctly rounded square root.
#[verifier::external_body]
pub(crate) fn f_sqrt(a: u64) -> (r: u64)
    ensures
        r == fp_sqrt_of(a),
{
    bytemuck::cast(libm::sqrt(bytemuck::cast(a)))
}

/// Relies on `libm::log`, the natural logarithm.
#[verifier::external_body]
pub(crate) fn f_ln(a: u64) -> (r: u64)
    ensures
        r == fp_ln_of(a),
{
    bytemuck::cast(libm::log(bytemuck::cast(a)))
}

/// Relies on `libm::log10`, the base-10 logarithm.
#[verifier::external_body]
pub(crate) fn f_log10(a: u64) -> (r: u64)
    ensures
        r == fp_log10_of(a),
{
    bytemuck::cast(libm::log10(bytemuck::cast(a)))
}

/// Relies on `libm::pow`.
#[verifier::external_body]
pub(crate) fn f_pow(a: u64, b: u64) -> (r: u64)
    ensures
        r == fp_pow_of(a, b),
{
    bytemuck::cast(libm::pow(bytemuck::cast(a), bytemuck::cast(b)))
}

/// Relies on rustc_apfloat's IEEE-754 double comparison: strictly-below,
/// false on NaN operands.
#[verifier::external_body]
pub(crate) fn f_lt(a: u64, b: u64) -> (r: bool)
    ensures
        r == fp_lt_cmp(a, b),
{
    let x = Double::from_bits(a as u128);
    let y = Double::from_bits(b as u128);
    x < y
}

/// Relies on rustc_apfloat's integer-to-double conversion, rounding to
/// nearest (exact below 2^53).
#[verifier::external_body]
pub(crate) fn f_of_int(n: u64) -> (r: u64)
    ensures
        r == fp_of_int(n),
{
    Double::from_u128(n as u128).value.to_bits() as u64
}

/// Relies on `str::parse` for doubles (correctly rounded decimal
/// conversion) after a UTF-8 check of the bytes. `libm::copysign` of a
/// value with itself is that value; it only pins the parsed type.
#[verifier::external_body]
pub(crate) fn parse_double(s: &Vec<u8>) -> (r: Option<u64>)
    ensures
        r == double_of_text(s@),
{
    match core::str::from_utf8(s.as_slice()) {
        Ok(t) => match t.parse() {
            Ok(v) => Some(bytemuck::cast(libm::copysign(v, v))),
            Err(_) => None,
        },
        Err(_) => None,
    }
}

} // verus!
