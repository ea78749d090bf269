//! The closed-form membership test for the two largest interior regions of
//! the Mandelbrot set: the main cardioid and the period-2 bulb. A point that
//! passes it cannot escape, so the iteration loop is skipped for it.

use vstd::prelude::*;
use crate::consts::F64_BULB_RADIUS2;
use crate::consts::F64_ONE;
use crate::consts::F64_QUARTER;
use crate::ieee::add_bits;
use crate::ieee::f64_add;
use crate::ieee::f64_is_nan;
use crate::ieee::f64_lt;
use crate::ieee::f64_mul;
use crate::ieee::f64_neg;
use crate::ieee::f64_sub;
use crate::ieee::is_nan_bits;
use crate::ieee::lt_bits;
use crate::ieee::mul_bits;
use crate::ieee::neg_bits;
use crate::ieee::sub_bits;

verus! {

/// The interior test as a function of `x` and of the square `y2` of the
/// imaginary part (the imaginary part enters the test only through its
/// square). With `q = (x - 1/4)^2 + y2`, the point lies in the main cardioid
/// exactly when `q * (q + (x - 1/4)) < y2 / 4`, and in the period-2 bulb
/// exactly when `(x + 1)^2 + y2 < 1/16`; all operations are IEEE 754
/// double-precision ones on bit patterns.
pub open spec fn spec_is_interior_given_y2(x: u64, y2: u64) -> bool {
    let xq = f64_sub(x, F64_QUARTER);
    let q = f64_add(f64_mul(xq, xq), y2);
    let in_cardioid = f64_lt(f64_mul(q, f64_add(q, xq)), f64_mul(F64_QUARTER, y2));
    let xb = f64_add(x, F64_ONE);
    let in_bulb = f64_lt(f64_add(f64_mul(xb, xb), y2), F64_BULB_RADIUS2);
    in_cardioid || in_bulb
}

/// Whether the point `(x, y)`, given as double bit patterns, lies in the
/// main cardioid or in the period-2 bulb.
pub open spec fn spec_is_interior(x: u64, y: u64) -> bool {
    spec_is_interior_given_y2(x, f64_mul(y, y))
}

/// The comparison chain of the interior test, on `x` and the square of the
/// imaginary part. A NaN square poisons both sums of the test, and an IEEE
/// ordered comparison with a NaN side is false, so the test rejects it.
fn interior_given_y2(x: u64, y2: u64) -> (r: bool)
    ensures
        r == spec_is_interior_given_y2(x, y2),
        f64_is_nan(y2) ==> !r,
{
    let xq = sub_bits(x, F64_QUARTER);
    let q = add_bits(mul_bits(xq, xq), y2);
    let in_cardioid = lt_bits(mul_bits(q, add_bits(q, xq)), mul_bits(F64_QUARTER, y2));
    let xb = add_bits(x, F64_ONE);
    let in_bulb = lt_bits(add_bits(mul_bits(xb, xb), y2), F64_BULB_RADIUS2);
    in_cardioid || in_bulb
}

/// Closed-form test of the main cardioid and the period-2 bulb, on double
/// bit patterns.
///
/// The second clause is the test's symmetry about the real axis: negating
/// the imaginary part cannot change the answer. `y` enters the test only
/// through the IEEE product `y * y`, whose sign rule cancels the two
/// flipped sign bits; when `y` is a NaN the two products may differ in their
/// sign bit, but both are NaNs and both fail every ordered comparison, so
/// the test is evaluated on the negated square as well to show that either
/// way the answer is the same.
pub fn is_interior(x: u64, y: u64) -> (r: bool)
    ensures
        r == spec_is_interior(x, y),
        r == spec_is_interior(x, f64_neg(y)),
{
    let y2 = mul_bits(y, y);
    let r = interior_given_y2(x, y2);
    if is_nan_bits(y) {
        let ny = neg_bits(y);
        proof {
            assert(((y ^ 0x8000_0000_0000_0000u64) >> 52) & 0x7FF == (y >> 52) & 0x7FF
                && (y ^ 0x8000_0000_0000_0000u64) & 0x000F_FFFF_FFFF_FFFF == y
                & 0x000F_FFFF_FFFF_FFFF) by (bit_vector);
            assert(f64_is_nan(ny));
        }
        let y2n = mul_bits(ny, ny);
        let rn = interior_given_y2(x, y2n);
        proof {
            assert(!r);
            assert(!rn);
        }
        r
    } else {
        r
    }
}

} // verus!
