//! Trusted primitives for IEEE 754 double-precision arithmetic on bit
//! patterns. Verified code in this crate carries every double as its 64-bit
//! pattern (`u64`) and every 32-bit float as its pattern (`u32`); the
//! arithmetic itself is done by `rustc_apfloat`, a software implementation of
//! IEEE 754 with default (round to nearest, ties to even) rounding, which is
//! exactly the semantics of the hardware operations on `f64`. Each operation
//! below is a function of its operand bit patterns alone, so each result is
//! given a name by an uninterpreted spec function.

use vstd::prelude::*;
use rustc_apfloat::Float;
use rustc_apfloat::FloatConvert;

verus! {

/// Sign bit of an IEEE 754 double-precision bit pattern.
pub const F64_SIGN_MASK: u64 = 0x8000_0000_0000_0000;

/// Mask of the fraction field of a double bit pattern.
pub const F64_FRAC_MASK: u64 = 0x000F_FFFF_FFFF_FFFF;

/// Whether the bit pattern is a NaN: exponent field all ones and a nonzero
/// fraction field.
pub open spec fn f64_is_nan(a: u64) -> bool {
    (a >> 52) & 0x7FF == 0x7FF && a & F64_FRAC_MASK != 0
}

// The IEEE 754 double-precision sum of the doubles with the given bit
// patterns, as a bit pattern (round to nearest, ties to even).
pub uninterp spec fn f64_add(a: u64, b: u64) -> u64;

// The IEEE 754 double-precision difference, as a bit pattern.
pub uninterp spec fn f64_sub(a: u64, b: u64) -> u64;

// The IEEE 754 double-precision product, as a bit pattern.
pub uninterp spec fn f64_mul(a: u64, b: u64) -> u64;

// The IEEE 754 double-precision quotient, as a bit pattern.
pub uninterp spec fn f64_div(a: u64, b: u64) -> u64;

// Whether the double with bit pattern `a` compares strictly below the one
// with bit pattern `b` (false whenever either is a NaN).
pub uninterp spec fn f64_lt(a: u64, b: u64) -> bool;

// The double nearest to the unsigned integer `v`, as a bit pattern.
pub uninterp spec fn f64_of_u64(v: u64) -> u64;

// The double nearest to the signed integer `v`, as a bit pattern.
pub uninterp spec fn f64_of_i64(v: i64) -> u64;

// The largest integral double not above the double with bit pattern `a`,
// as a bit pattern.
pub uninterp spec fn f64_floor(a: u64) -> u64;

// The double with bit pattern `a`, rounded toward zero and converted to a
// signed 64-bit integer, saturating on overflow.
pub uninterp spec fn f64_as_i64(a: u64) -> i64;

// The double with bit pattern `a` multiplied by `2^n`, as a bit pattern
// (exact but for overflow to infinity and rounding into the subnormal range).
pub uninterp spec fn f64_scalb(a: u64, n: i32) -> u64;

// The single-precision float nearest to the double with bit pattern `a`
// (round to nearest, ties to even), as a 32-bit pattern: the semantics of a
// narrowing float cast.
pub uninterp spec fn f32_of_f64(a: u64) -> u32;

/// The bit pattern of the negation of the double with bit pattern `a`:
/// IEEE 754 negation flips the sign bit and changes nothing else.
pub open spec fn f64_neg(a: u64) -> u64 {
    a ^ F64_SIGN_MASK
}

/// The bit pattern of the absolute value of the double with bit pattern `a`:
/// IEEE 754 absolute value clears the sign bit and changes nothing else.
pub open spec fn f64_abs(a: u64) -> u64 {
    a & 0x7FFF_FFFF_FFFF_FFFF
}

/// Negation of a double given as its bit pattern.
pub fn neg_bits(a: u64) -> (r: u64)
    ensures
        r == f64_neg(a),
{
    a ^ F64_SIGN_MASK
}

/// Absolute value of a double given as its bit pattern.
pub fn abs_bits(a: u64) -> (r: u64)
    ensures
        r == f64_abs(a),
{
    a & 0x7FFF_FFFF_FFFF_FFFF
}

/// Whether a double given as its bit pattern is a NaN.
pub fn is_nan_bits(a: u64) -> (r: bool)
    ensures
        r == f64_is_nan(a),
{
    (a >> 52) & 0x7FF == 0x7FF && a & F64_FRAC_MASK != 0
}

/// Relies on rustc_apfloat's `Add` for `ieee::Double`: the IEEE 754 sum of
/// the two operands, rounded to nearest, ties to even. A NaN operand
/// propagates (the sum is the quieted NaN operand), so the sum of a NaN is
/// a NaN.
#[verifier::external_body]
pub fn add_bits(a: u64, b: u64) -> (r: u64)
    ensures
        r == f64_add(a, b),
        f64_is_nan(a) || f64_is_nan(b) ==> f64_is_nan(r),
{
    let x = rustc_apfloat::ieee::Double::from_bits(a as u128);
    let y = rustc_apfloat::ieee::Double::from_bits(b as u128);
    (x + y).value.to_bits() as u64
}

/// Relies on rustc_apfloat's `Sub` for `ieee::Double`: the IEEE 754
/// difference, rounded to nearest, ties to even.
#[verifier::external_body]
pub fn sub_bits(a: u64, b: u64) -> (r: u64)
    ensures
        r == f64_sub(a, b),
{
    let x = rustc_apfloat::ieee::Double::from_bits(a as u128);
    let y = rustc_apfloat::ieee::Double::from_bits(b as u128);
    (x - y).value.to_bits() as u64
}

/// Relies on rustc_apfloat's `Mul` for `ieee::Double`: the IEEE 754 product,
/// rounded to nearest, ties to even.
///
/// For operands that are not NaNs the product's sign is the exclusive or of
/// the operands' signs (and an invalid zero-times-infinity gives the default
/// NaN whatever the signs), so negating both operands — flipping both sign
/// bits — leaves the product unchanged: the second clause states that
/// symmetry, for those operands only. A NaN operand instead propagates,
/// quieted and with its own sign kept, so there the sign-flipped product is
/// the sign-flipped NaN, not the same pattern; of that case the third
/// clause states only that the product is a NaN.
#[verifier::external_body]
pub fn mul_bits(a: u64, b: u64) -> (r: u64)
    ensures
        r == f64_mul(a, b),
        !f64_is_nan(a) && !f64_is_nan(b) ==> f64_mul(a ^ F64_SIGN_MASK, b ^ F64_SIGN_MASK) == r,
        f64_is_nan(a) || f64_is_nan(b) ==> f64_is_nan(r),
{
    let x = rustc_apfloat::ieee::Double::from_bits(a as u128);
    let y = rustc_apfloat::ieee::Double::from_bits(b as u128);
    (x * y).value.to_bits() as u64
}

/// Relies on rustc_apfloat's `Div` for `ieee::Double`: the IEEE 754
/// quotient, rounded to nearest, ties to even.
#[verifier::external_body]
pub fn div_bits(a: u64, b: u64) -> (r: u64)
    ensures
        r == f64_div(a, b),
{
    let x = rustc_apfloat::ieee::Double::from_bits(a as u128);
    let y = rustc_apfloat::ieee::Double::from_bits(b as u128);
    (x / y).value.to_bits() as u64
}

/// Relies on rustc_apfloat's `PartialOrd` for `ieee::Double`: the IEEE 754
/// ordered comparison, which is false whenever either operand is a NaN —
/// the second clause states that documented case.
#[verifier::external_body]
pub fn lt_bits(a: u64, b: u64) -> (r: bool)
    ensures
        r == f64_lt(a, b),
        f64_is_nan(a) || f64_is_nan(b) ==> !r,
{
    let x = rustc_apfloat::ieee::Double::from_bits(a as u128);
    let y = rustc_apfloat::ieee::Double::from_bits(b as u128);
    x < y
}

/// Relies on rustc_apfloat's `Float::from_u128` for `ieee::Double`: the
/// unsigned integer converted to the nearest double (ties to even), the
/// semantics of an integer-to-double cast.
#[verifier::external_body]
pub fn from_u64_bits(v: u64) -> (r: u64)
    ensures
        r == f64_of_u64(v),
{
    rustc_apfloat::ieee::Double::from_u128(v as u128).value.to_bits() as u64
}

/// Relies on rustc_apfloat's `Float::from_i128` for `ieee::Double`: the
/// signed integer converted to the nearest double (ties to even).
#[verifier::external_body]
pub fn from_i64_bits(v: i64) -> (r: u64)
    ensures
        r == f64_of_i64(v),
{
    rustc_apfloat::ieee::Double::from_i128(v as i128).value.to_bits() as u64
}

/// Relies on rustc_apfloat's `Float::round_to_integral` with rounding toward
/// negative infinity: the floor of the operand.
#[verifier::external_body]
pub fn floor_bits(a: u64) -> (r: u64)
    ensures
        r == f64_floor(a),
{
    let x = rustc_apfloat::ieee::Double::from_bits(a as u128);
    x.round_to_integral(rustc_apfloat::Round::TowardNegative).value.to_bits() as u64
}

/// Relies on rustc_apfloat's `Float::to_i128`: the operand converted to a
/// signed 64-bit integer, rounding toward zero, saturating on overflow and
/// taking a NaN to zero.
#[verifier::external_body]
pub fn to_i64_bits(a: u64) -> (r: i64)
    ensures
        r == f64_as_i64(a),
{
    let x = rustc_apfloat::ieee::Double::from_bits(a as u128);
    x.to_i128(64).value as i64
}

/// Relies on rustc_apfloat's `Float::scalbn` for `ieee::Double`: the operand
/// multiplied by `2^n`, exact except for overflow to infinity and rounding
/// into the subnormal range.
#[verifier::external_body]
pub fn scalb_bits(a: u64, n: i32) -> (r: u64)
    ensures
        r == f64_scalb(a, n),
{
    let x = rustc_apfloat::ieee::Double::from_bits(a as u128);
    x.scalbn(n).to_bits() as u64
}

/// Relies on rustc_apfloat's `FloatConvert` from `ieee::Double` to
/// `ieee::Single`: the IEEE 754 narrowing conversion, rounded to nearest,
/// ties to even, the semantics of a double-to-single cast.
#[verifier::external_body]
pub fn to_f32_bits(a: u64) -> (r: u32)
    ensures
        r == f32_of_f64(a),
{
    let x = rustc_apfloat::ieee::Double::from_bits(a as u128);
    let mut loses_info: bool = false;
    let s: rustc_apfloat::ieee::Single = x.convert(&mut loses_info).value;
    s.to_bits() as u32
}

} // verus!
