//! The interior test and the escape-time iteration against an independent
//! straight-line evaluation in hardware floating point. The library's orbit
//! arithmetic is IEEE 754 double precision exactly, so orbits and escape
//! steps must match the hardware bit for bit; the smoothed estimate uses the
//! library's own logarithm evaluation, so values are compared within a
//! tolerance.

use mandelbrot_tiles::escape::escape_time;
use mandelbrot_tiles::interior::is_interior;
use mandelbrot_tiles::transcend::exp2_bits;
use mandelbrot_tiles::transcend::ln_bits;

/// Straight-line escape-time evaluation on hardware doubles: bailout test
/// before each step, orbit update, periodicity test against a checkpoint
/// refreshed every twenty steps, budget test between passes.
fn oracle_escape_time(cx: f64, cy: f64, max_iterations: f64) -> f64 {
    let mut zx = 0.0f64;
    let mut zy = 0.0f64;
    let mut x2 = 0.0f64;
    let mut y2 = 0.0f64;
    let mut cycle_x = 0.0f64;
    let mut cycle_y = 0.0f64;
    let mut i = 0.0f64;
    while i < max_iterations {
        for _ in 0..20 {
            if x2 + y2 > 24.0 {
                return i + 2.0 - (x2 + y2).ln().ln() / 2.0f64.ln();
            }
            zy = (zx + zx) * zy + cy;
            zx = x2 - y2 + cx;
            x2 = zx * zx;
            y2 = zy * zy;
            i += 1.0;
            let x_approx = (zx - cycle_x).abs() < 1e-12;
            let y_approx = (zy - cycle_y).abs() < 1e-12;
            if i >= 40.0 && x_approx && y_approx {
                return 0.0;
            }
        }
        cycle_x = zx;
        cycle_y = zy;
    }
    0.0
}

fn close(a: f64, b: f64, tol: f64) -> bool {
    (a - b).abs() <= tol * (1.0 + b.abs())
}

#[test]
fn interior_symmetry_on_samples() {
    let samples: Vec<(f64, f64)> = vec![
        (0.0, 0.0),
        (0.1, 0.2),
        (-1.0, 0.05),
        (-0.75, 0.1),
        (0.25, 0.0001),
        (-1.2, 0.3),
        (2.0, 1.0),
        (-0.1, -0.6),
        (0.3, 0.5),
    ];
    for (x, y) in samples {
        assert_eq!(
            is_interior(x.to_bits(), y.to_bits()),
            is_interior(x.to_bits(), (-y).to_bits())
        );
    }
    // A NaN imaginary part: its square keeps the flipped sign bit, but both
    // sides fail every ordered comparison alike.
    assert_eq!(
        is_interior(0.5f64.to_bits(), f64::NAN.to_bits()),
        is_interior(0.5f64.to_bits(), (-f64::NAN).to_bits())
    );
    assert!(!is_interior(0.5f64.to_bits(), f64::NAN.to_bits()));
}

#[test]
fn origin_lies_in_cardioid() {
    assert!(is_interior(0.0f64.to_bits(), 0.0f64.to_bits()));
}

#[test]
fn bulb_centre_lies_in_bulb() {
    assert!(is_interior((-1.0f64).to_bits(), 0.0f64.to_bits()));
}

#[test]
fn point_past_cardioid_cusp_is_not_interior() {
    assert!(!is_interior(0.26f64.to_bits(), 0.0f64.to_bits()));
}

#[test]
fn far_point_escapes_with_positive_finite_value() {
    let r = escape_time(2.0f64.to_bits(), 0.0f64.to_bits(), 50);
    let v = f64::from_bits(r);
    assert!(v.is_finite());
    assert!(v > 0.0);
    assert!(v != 0.0);
    let reference = oracle_escape_time(2.0, 0.0, 50.0);
    assert!(close(v, reference, 1e-6));
}

#[test]
fn low_budget_merges_slow_escape_into_zero() {
    let r = escape_time(0.26f64.to_bits(), 0.0f64.to_bits(), 5);
    assert_eq!(f64::from_bits(r), 0.0);
    let reference = oracle_escape_time(0.26, 0.0, 5.0);
    assert_eq!(reference, 0.0);
}

#[test]
fn slow_escape_leaves_with_a_larger_budget() {
    let r = escape_time(0.26f64.to_bits(), 0.0f64.to_bits(), 1000);
    let v = f64::from_bits(r);
    assert!(v > 0.0);
    let reference = oracle_escape_time(0.26, 0.0, 1000.0);
    assert!(close(v, reference, 1e-6));
}

#[test]
fn periodic_interior_point_returns_zero() {
    // Near the centre of the period-3 island on the real axis: outside the
    // cardioid and the period-2 bulb, caught by periodicity detection.
    let r = escape_time((-1.754878f64).to_bits(), 0.0f64.to_bits(), 100_000);
    assert_eq!(f64::from_bits(r), 0.0);
    assert_eq!(oracle_escape_time(-1.754878, 0.0, 100_000.0), 0.0);
}

#[test]
fn escape_values_match_oracle_on_samples() {
    let samples: Vec<(f64, f64)> = vec![
        (-8.0, -8.0),
        (0.0, -8.0),
        (-2.5, 1.5),
        (0.4, 0.4),
        (-0.77, 0.18),
        (0.3, 0.03),
    ];
    for (x, y) in samples {
        let v = f64::from_bits(escape_time(x.to_bits(), y.to_bits(), 200));
        let reference = oracle_escape_time(x, y, 200.0);
        assert!(close(v, reference, 1e-6));
    }
}

#[test]
fn logarithm_evaluation_is_accurate() {
    let inputs: Vec<f64> = vec![128.0, 24.5, 3.2, 1.0, 2.0, 1e300, 7.389056];
    for x in inputs {
        let v = f64::from_bits(ln_bits(x.to_bits()));
        assert!(close(v, x.ln(), 1e-8));
    }
    assert_eq!(ln_bits(f64::INFINITY.to_bits()), f64::INFINITY.to_bits());
    assert!(f64::from_bits(ln_bits(f64::NAN.to_bits())).is_nan());
    assert_eq!(ln_bits(2.0f64.to_bits()), 2.0f64.ln().to_bits());
}

#[test]
fn power_of_two_evaluation_is_accurate() {
    let inputs: Vec<f64> = vec![0.0, 1.0, -1.0, 0.5, -0.5, 10.25, -37.7, 1023.0, -1060.5];
    for x in inputs {
        let v = f64::from_bits(exp2_bits(x.to_bits()));
        assert!(close(v, x.exp2(), 1e-11));
    }
    assert_eq!(exp2_bits(f64::INFINITY.to_bits()), f64::INFINITY.to_bits());
    assert_eq!(exp2_bits(f64::NEG_INFINITY.to_bits()), 0.0f64.to_bits());
    assert_eq!(exp2_bits(2000.0f64.to_bits()), f64::INFINITY.to_bits());
    assert_eq!(exp2_bits((-2000.0f64).to_bits()), 0.0f64.to_bits());
    assert!(f64::from_bits(exp2_bits(f64::NAN.to_bits())).is_nan());
}
