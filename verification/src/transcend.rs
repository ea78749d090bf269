//! Natural logarithm and power of two on double bit patterns, evaluated with
//! the trusted IEEE 754 primitives alone. Standard libraries promise no
//! particular precision for their transcendental functions; here each result
//! is pinned exactly, as the stated composition of IEEE operations.
//!
//! The logarithm splits its argument into exponent and mantissa and sums an
//! odd series in `t = (m - 1) / (m + 1)` (so `|t| < 1/3`, and seven terms
//! leave a relative error near 5e-9); the power of two splits its argument
//! into integral and fractional parts and evaluates `exp(f * ln 2)` by its
//! Taylor series (thirteen terms, error near 2e-12), then rescales exactly.

use vstd::prelude::*;
use crate::consts::F64_BASE_SCALE;
use crate::consts::F64_EXP_CLAMP;
use crate::consts::F64_EXP_CLAMP_NEG;
use crate::consts::F64_INFINITY;
use crate::consts::F64_INV11;
use crate::consts::F64_INV13;
use crate::consts::F64_INV3;
use crate::consts::F64_INV5;
use crate::consts::F64_INV7;
use crate::consts::F64_INV9;
use crate::consts::F64_INV_FACT10;
use crate::consts::F64_INV_FACT11;
use crate::consts::F64_INV_FACT12;
use crate::consts::F64_INV_FACT2;
use crate::consts::F64_INV_FACT3;
use crate::consts::F64_INV_FACT4;
use crate::consts::F64_INV_FACT5;
use crate::consts::F64_INV_FACT6;
use crate::consts::F64_INV_FACT7;
use crate::consts::F64_INV_FACT8;
use crate::consts::F64_INV_FACT9;
use crate::consts::F64_LN2;
use crate::consts::F64_NAN;
use crate::consts::F64_ONE;
use crate::consts::F64_ZERO;
use crate::ieee::F64_FRAC_MASK;
use crate::ieee::F64_SIGN_MASK;
use crate::ieee::add_bits;
use crate::ieee::div_bits;
use crate::ieee::f64_add;
use crate::ieee::f64_as_i64;
use crate::ieee::f64_div;
use crate::ieee::f64_floor;
use crate::ieee::f64_lt;
use crate::ieee::f64_mul;
use crate::ieee::f64_neg;
use crate::ieee::f64_of_i64;
use crate::ieee::f64_scalb;
use crate::ieee::f64_sub;
use crate::ieee::floor_bits;
use crate::ieee::from_i64_bits;
use crate::ieee::lt_bits;
use crate::ieee::mul_bits;
use crate::ieee::neg_bits;
use crate::ieee::scalb_bits;
use crate::ieee::sub_bits;
use crate::ieee::to_i64_bits;

verus! {

/// Bit pattern of 1.0: the exponent field of an unbiased mantissa.
pub const F64_ONE_EXP_FIELD: u64 = 0x3FF0_0000_0000_0000;

/// The natural logarithm of the double with bit pattern `a`, as the exact
/// composition of IEEE operations that [`ln_bits`] performs: for a positive
/// normal `a = 2^e * m` with `m` in `[1, 2)`, the value
/// `e * ln 2 + 2 * (t + t^3/3 + ... + t^13/13)` with `t = (m - 1) / (m + 1)`.
/// A NaN and positive infinity propagate; for zero, negative and subnormal
/// patterns the result is a NaN (no caller in this crate reaches those: the
/// escape-time path takes logarithms only of values beyond the bailout
/// threshold).
pub open spec fn spec_ln(a: u64) -> u64 {
    let e_field = (a >> 52) & 0x7FF;
    if a & F64_SIGN_MASK != 0 || a == 0 || e_field == 0 {
        F64_NAN
    } else if e_field == 0x7FF {
        a
    } else {
        let m = (a & F64_FRAC_MASK) | F64_ONE_EXP_FIELD;
        let t = f64_div(f64_sub(m, F64_ONE), f64_add(m, F64_ONE));
        let u = f64_mul(t, t);
        let p1 = f64_add(f64_mul(F64_INV13, u), F64_INV11);
        let p2 = f64_add(f64_mul(p1, u), F64_INV9);
        let p3 = f64_add(f64_mul(p2, u), F64_INV7);
        let p4 = f64_add(f64_mul(p3, u), F64_INV5);
        let p5 = f64_add(f64_mul(p4, u), F64_INV3);
        let tail = f64_mul(f64_mul(t, u), p5);
        let half_ln_m = f64_add(t, tail);
        let ln_m = f64_add(half_ln_m, half_ln_m);
        let e_f = f64_of_i64((e_field - 1023) as i64);
        f64_add(f64_mul(e_f, F64_LN2), ln_m)
    }
}

/// Natural logarithm of a double given as its bit pattern.
pub fn ln_bits(a: u64) -> (r: u64)
    ensures
        r == spec_ln(a),
{
    let e_field: u64 = (a >> 52) & 0x7FF;
    if a & F64_SIGN_MASK != 0 || a == 0 || e_field == 0 {
        return F64_NAN;
    }
    if e_field == 0x7FF {
        return a;
    }
    let m: u64 = (a & F64_FRAC_MASK) | F64_ONE_EXP_FIELD;
    let t = div_bits(sub_bits(m, F64_ONE), add_bits(m, F64_ONE));
    let u = mul_bits(t, t);
    let p1 = add_bits(mul_bits(F64_INV13, u), F64_INV11);
    let p2 = add_bits(mul_bits(p1, u), F64_INV9);
    let p3 = add_bits(mul_bits(p2, u), F64_INV7);
    let p4 = add_bits(mul_bits(p3, u), F64_INV5);
    let p5 = add_bits(mul_bits(p4, u), F64_INV3);
    let tail = mul_bits(mul_bits(t, u), p5);
    let half_ln_m = add_bits(t, tail);
    let ln_m = add_bits(half_ln_m, half_ln_m);
    assert((a >> 52) & 0x7FF <= 0x7FF) by (bit_vector);
    let e: i64 = (e_field as i64) - 1023;
    let e_f = from_i64_bits(e);
    add_bits(mul_bits(e_f, F64_LN2), ln_m)
}

/// Two raised to the double with bit pattern `a`, as the exact composition
/// of IEEE operations that [`exp2_bits`] performs: the argument is split as
/// `a = n + f` with `n = floor(a)` and `f` in `[0, 1)`, `2^f` is evaluated
/// as the Taylor series of `exp(f * ln 2)` through the twelfth power, and
/// the result is rescaled by `2^n` exactly. A NaN propagates; the result is
/// infinity for arguments above 1100 (every finite double lies below
/// `2^1024`) and at positive infinity, and zero for arguments below -1100
/// (every positive double lies above `2^-1075`) and at negative infinity.
pub open spec fn spec_exp2(a: u64) -> u64 {
    let e_field = (a >> 52) & 0x7FF;
    if e_field == 0x7FF {
        if a & F64_FRAC_MASK != 0 {
            a
        } else if a & F64_SIGN_MASK != 0 {
            F64_ZERO
        } else {
            F64_INFINITY
        }
    } else if f64_lt(F64_EXP_CLAMP, a) {
        F64_INFINITY
    } else if f64_lt(a, F64_EXP_CLAMP_NEG) {
        F64_ZERO
    } else {
        let nf = f64_floor(a);
        let n = f64_as_i64(nf);
        let n32 = if n > 2000 {
            2000i32
        } else if n < -2000 {
            -2000i32
        } else {
            n as i32
        };
        let f = f64_sub(a, nf);
        let w = f64_mul(f, F64_LN2);
        let p1 = f64_add(f64_mul(F64_INV_FACT12, w), F64_INV_FACT11);
        let p2 = f64_add(f64_mul(p1, w), F64_INV_FACT10);
        let p3 = f64_add(f64_mul(p2, w), F64_INV_FACT9);
        let p4 = f64_add(f64_mul(p3, w), F64_INV_FACT8);
        let p5 = f64_add(f64_mul(p4, w), F64_INV_FACT7);
        let p6 = f64_add(f64_mul(p5, w), F64_INV_FACT6);
        let p7 = f64_add(f64_mul(p6, w), F64_INV_FACT5);
        let p8 = f64_add(f64_mul(p7, w), F64_INV_FACT4);
        let p9 = f64_add(f64_mul(p8, w), F64_INV_FACT3);
        let p10 = f64_add(f64_mul(p9, w), F64_INV_FACT2);
        let p11 = f64_add(f64_mul(p10, w), F64_ONE);
        let p12 = f64_add(f64_mul(p11, w), F64_ONE);
        f64_scalb(p12, n32)
    }
}

/// Two raised to a double given as its bit pattern.
pub fn exp2_bits(a: u64) -> (r: u64)
    ensures
        r == spec_exp2(a),
{
    let e_field: u64 = (a >> 52) & 0x7FF;
    if e_field == 0x7FF {
        if a & F64_FRAC_MASK != 0 {
            return a;
        }
        if a & F64_SIGN_MASK != 0 {
            return F64_ZERO;
        }
        return F64_INFINITY;
    }
    if lt_bits(F64_EXP_CLAMP, a) {
        return F64_INFINITY;
    }
    if lt_bits(a, F64_EXP_CLAMP_NEG) {
        return F64_ZERO;
    }
    let nf = floor_bits(a);
    let n = to_i64_bits(nf);
    let n32: i32 = if n > 2000 {
        2000
    } else if n < -2000 {
        -2000
    } else {
        n as i32
    };
    let f = sub_bits(a, nf);
    let w = mul_bits(f, F64_LN2);
    let p1 = add_bits(mul_bits(F64_INV_FACT12, w), F64_INV_FACT11);
    let p2 = add_bits(mul_bits(p1, w), F64_INV_FACT10);
    let p3 = add_bits(mul_bits(p2, w), F64_INV_FACT9);
    let p4 = add_bits(mul_bits(p3, w), F64_INV_FACT8);
    let p5 = add_bits(mul_bits(p4, w), F64_INV_FACT7);
    let p6 = add_bits(mul_bits(p5, w), F64_INV_FACT6);
    let p7 = add_bits(mul_bits(p6, w), F64_INV_FACT5);
    let p8 = add_bits(mul_bits(p7, w), F64_INV_FACT4);
    let p9 = add_bits(mul_bits(p8, w), F64_INV_FACT3);
    let p10 = add_bits(mul_bits(p9, w), F64_INV_FACT2);
    let p11 = add_bits(mul_bits(p10, w), F64_ONE);
    let p12 = add_bits(mul_bits(p11, w), F64_ONE);
    scalb_bits(p12, n32)
}

/// The complex-plane span of a tile at the given zoom: the base scale of 16
/// multiplied by two raised to the negated zoom. Exact for integral zooms,
/// where the fractional part of the exponent vanishes and the rescaling is
/// exact: raising the zoom by one exactly halves the scale.
pub open spec fn spec_scale_of_zoom(zoom: u64) -> u64 {
    f64_mul(F64_BASE_SCALE, spec_exp2(f64_neg(zoom)))
}

/// The scale of a tile at the given zoom, on double bit patterns.
pub fn scale_of_zoom(zoom: u64) -> (r: u64)
    ensures
        r == spec_scale_of_zoom(zoom),
{
    let p = exp2_bits(neg_bits(zoom));
    mul_bits(F64_BASE_SCALE, p)
}

} // verus!
