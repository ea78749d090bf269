//! Every named bit-pattern constant of the library must be exactly the
//! IEEE 754 bit pattern of the double it stands for.

use mandelbrot_tiles::consts::F64_BAILOUT;
use mandelbrot_tiles::consts::F64_BASE_OFFSET;
use mandelbrot_tiles::consts::F64_BASE_SCALE;
use mandelbrot_tiles::consts::F64_BULB_RADIUS2;
use mandelbrot_tiles::consts::F64_EXP_CLAMP;
use mandelbrot_tiles::consts::F64_EXP_CLAMP_NEG;
use mandelbrot_tiles::consts::F64_INFINITY;
use mandelbrot_tiles::consts::F64_INV11;
use mandelbrot_tiles::consts::F64_INV13;
use mandelbrot_tiles::consts::F64_INV3;
use mandelbrot_tiles::consts::F64_INV5;
use mandelbrot_tiles::consts::F64_INV7;
use mandelbrot_tiles::consts::F64_INV9;
use mandelbrot_tiles::consts::F64_INV_FACT10;
use mandelbrot_tiles::consts::F64_INV_FACT11;
use mandelbrot_tiles::consts::F64_INV_FACT12;
use mandelbrot_tiles::consts::F64_INV_FACT2;
use mandelbrot_tiles::consts::F64_INV_FACT3;
use mandelbrot_tiles::consts::F64_INV_FACT4;
use mandelbrot_tiles::consts::F64_INV_FACT5;
use mandelbrot_tiles::consts::F64_INV_FACT6;
use mandelbrot_tiles::consts::F64_INV_FACT7;
use mandelbrot_tiles::consts::F64_INV_FACT8;
use mandelbrot_tiles::consts::F64_INV_FACT9;
use mandelbrot_tiles::consts::F64_LN2;
use mandelbrot_tiles::consts::F64_NAN;
use mandelbrot_tiles::consts::F64_ONE;
use mandelbrot_tiles::consts::F64_PERIODICITY_THRESHOLD;
use mandelbrot_tiles::consts::F64_QUARTER;
use mandelbrot_tiles::consts::F64_TWO;
use mandelbrot_tiles::consts::F64_ZERO;
use mandelbrot_tiles::ieee::F64_SIGN_MASK;
use mandelbrot_tiles::ieee::F64_FRAC_MASK;
use mandelbrot_tiles::transcend::F64_ONE_EXP_FIELD;

#[test]
fn algorithm_constants_are_ieee_bit_patterns() {
    assert_eq!(F64_ZERO, 0.0f64.to_bits());
    assert_eq!(F64_QUARTER, 0.25f64.to_bits());
    assert_eq!(F64_ONE, 1.0f64.to_bits());
    assert_eq!(F64_TWO, 2.0f64.to_bits());
    assert_eq!(F64_BULB_RADIUS2, 0.0625f64.to_bits());
    assert_eq!(F64_BAILOUT, 24.0f64.to_bits());
    assert_eq!(F64_PERIODICITY_THRESHOLD, 1e-12f64.to_bits());
    assert_eq!(F64_BASE_SCALE, 16.0f64.to_bits());
    assert_eq!(F64_BASE_OFFSET, (-8.0f64).to_bits());
    assert_eq!(F64_INFINITY, f64::INFINITY.to_bits());
    assert!(f64::from_bits(F64_NAN).is_nan());
}

#[test]
fn series_constants_are_ieee_bit_patterns() {
    assert_eq!(F64_LN2, 2.0f64.ln().to_bits());
    assert_eq!(F64_EXP_CLAMP, 1100.0f64.to_bits());
    assert_eq!(F64_EXP_CLAMP_NEG, (-1100.0f64).to_bits());
    assert_eq!(F64_INV3, (1.0f64 / 3.0).to_bits());
    assert_eq!(F64_INV5, (1.0f64 / 5.0).to_bits());
    assert_eq!(F64_INV7, (1.0f64 / 7.0).to_bits());
    assert_eq!(F64_INV9, (1.0f64 / 9.0).to_bits());
    assert_eq!(F64_INV11, (1.0f64 / 11.0).to_bits());
    assert_eq!(F64_INV13, (1.0f64 / 13.0).to_bits());
    assert_eq!(F64_INV_FACT2, (1.0f64 / 2.0).to_bits());
    assert_eq!(F64_INV_FACT3, (1.0f64 / 6.0).to_bits());
    assert_eq!(F64_INV_FACT4, (1.0f64 / 24.0).to_bits());
    assert_eq!(F64_INV_FACT5, (1.0f64 / 120.0).to_bits());
    assert_eq!(F64_INV_FACT6, (1.0f64 / 720.0).to_bits());
    assert_eq!(F64_INV_FACT7, (1.0f64 / 5040.0).to_bits());
    assert_eq!(F64_INV_FACT8, (1.0f64 / 40320.0).to_bits());
    assert_eq!(F64_INV_FACT9, (1.0f64 / 362880.0).to_bits());
    assert_eq!(F64_INV_FACT10, (1.0f64 / 3628800.0).to_bits());
    assert_eq!(F64_INV_FACT11, (1.0f64 / 39916800.0).to_bits());
    assert_eq!(F64_INV_FACT12, (1.0f64 / 479001600.0).to_bits());
}

#[test]
fn bit_masks_match_ieee_layout() {
    assert_eq!(F64_SIGN_MASK, (-0.0f64).to_bits());
    assert_eq!(F64_FRAC_MASK, (1u64 << 52) - 1);
    assert_eq!(F64_ONE_EXP_FIELD, 1.0f64.to_bits());
    assert_eq!(F64_ONE_EXP_FIELD | F64_FRAC_MASK, (2.0f64 - f64::EPSILON).to_bits());
}
