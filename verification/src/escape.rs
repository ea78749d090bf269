//! The escape-time iteration: the quadratic orbit `z := z^2 + c` on double
//! bit patterns, with a bailout test before every step, periodicity
//! detection against a checkpoint refreshed every twenty steps, and a
//! smoothed (continuous) iteration count on escape.

use vstd::prelude::*;
use crate::consts::F64_BAILOUT;
use crate::consts::F64_PERIODICITY_THRESHOLD;
use crate::consts::F64_TWO;
use crate::consts::F64_ZERO;
use crate::ieee::abs_bits;
use crate::ieee::add_bits;
use crate::ieee::div_bits;
use crate::ieee::f64_abs;
use crate::ieee::f64_add;
use crate::ieee::f64_div;
use crate::ieee::f64_lt;
use crate::ieee::f64_mul;
use crate::ieee::f64_of_u64;
use crate::ieee::f64_sub;
use crate::ieee::from_u64_bits;
use crate::ieee::lt_bits;
use crate::ieee::mul_bits;
use crate::ieee::sub_bits;
use crate::transcend::spec_ln;
use crate::transcend::ln_bits;

verus! {

/// How many steps a checkpoint for periodicity detection stays in place.
pub const CYCLE_MEMORY_INTERVAL: u64 = 20;

/// The step count before which periodicity detection stays off.
pub const CYCLE_DETECTION_DELAY: u64 = 40;

/// The orbit's state after a number of steps: the iterate `z = zx + i*zy`
/// and the cached squares of its components, all as double bit patterns.
pub struct OrbitState {
    pub zx: u64,
    pub zy: u64,
    pub x2: u64,
    pub y2: u64,
}

/// The orbit of `c = cx + i*cy` after `n` steps: it starts at zero, and each
/// step maps `z` to `z^2 + c` in IEEE double precision, the imaginary part
/// first (from the previous `zx`), the real part from the cached squares.
pub open spec fn spec_orbit(cx: u64, cy: u64, n: nat) -> OrbitState
    decreases n,
{
    if n == 0 {
        OrbitState { zx: F64_ZERO, zy: F64_ZERO, x2: F64_ZERO, y2: F64_ZERO }
    } else {
        let s = spec_orbit(cx, cy, (n - 1) as nat);
        let zy = f64_add(f64_mul(f64_add(s.zx, s.zx), s.zy), cy);
        let zx = f64_add(f64_sub(s.x2, s.y2), cx);
        OrbitState { zx, zy, x2: f64_mul(zx, zx), y2: f64_mul(zy, zy) }
    }
}

/// Whether the orbit's squared magnitude exceeds the bailout threshold
/// after `n` steps (false if the magnitude is a NaN).
pub open spec fn spec_escaped_at(cx: u64, cy: u64, n: nat) -> bool {
    let s = spec_orbit(cx, cy, n);
    f64_lt(F64_BAILOUT, f64_add(s.x2, s.y2))
}

/// Whether periodicity detection fires after step `n` against the
/// checkpoint `(chk_x, chk_y)`: detection is active from step
/// [`CYCLE_DETECTION_DELAY`] on, and fires when both components of the
/// iterate lie within the periodicity threshold of the checkpoint.
pub open spec fn spec_cycle_hit(cx: u64, cy: u64, n: nat, chk_x: u64, chk_y: u64) -> bool {
    let s = spec_orbit(cx, cy, n);
    &&& n >= CYCLE_DETECTION_DELAY
    &&& f64_lt(f64_abs(f64_sub(s.zx, chk_x)), F64_PERIODICITY_THRESHOLD)
    &&& f64_lt(f64_abs(f64_sub(s.zy, chk_y)), F64_PERIODICITY_THRESHOLD)
}

/// How one pass of up to twenty steps ends.
pub enum PassOutcome {
    /// The bailout test succeeded before the step at this position.
    Escaped { step: nat },
    /// Periodicity detection fired.
    Cycled,
    /// The pass ran all its steps without an exit.
    Completed,
}

/// The first exit, if any, within `k` more steps of the pass that stands at
/// position `j` with checkpoint `(chk_x, chk_y)`: before each step the
/// bailout test is made at the current position, and after it periodicity
/// is tested at the new one.
pub open spec fn spec_pass(cx: u64, cy: u64, j: nat, chk_x: u64, chk_y: u64, k: nat) -> PassOutcome
    decreases k,
{
    if k == 0 {
        PassOutcome::Completed
    } else if spec_escaped_at(cx, cy, j) {
        PassOutcome::Escaped { step: j }
    } else if spec_cycle_hit(cx, cy, j + 1, chk_x, chk_y) {
        PassOutcome::Cycled
    } else {
        spec_pass(cx, cy, j + 1, chk_x, chk_y, (k - 1) as nat)
    }
}

/// How the whole iteration ends.
pub enum EscapeOutcome {
    /// The bailout test succeeded before this step.
    Escaped { step: nat },
    /// Periodicity detection fired: the orbit was caught in a cycle.
    Cycled,
    /// The iteration budget ran out with no escape and no detected cycle.
    Exhausted,
}

/// The iteration's end, resumed from position `i` (a pass boundary): while
/// `i` lies below the budget a pass of [`CYCLE_MEMORY_INTERVAL`] steps runs
/// with the checkpoint refreshed to the iterate at the pass's start; the
/// budget test is made only between passes, so a pass that began below the
/// budget runs whole.
pub open spec fn spec_run(cx: u64, cy: u64, budget: u64, i: nat) -> EscapeOutcome
    decreases budget + CYCLE_MEMORY_INTERVAL - i,
{
    if i >= budget {
        EscapeOutcome::Exhausted
    } else {
        let chk = spec_orbit(cx, cy, i);
        match spec_pass(cx, cy, i, chk.zx, chk.zy, CYCLE_MEMORY_INTERVAL as nat) {
            PassOutcome::Escaped { step } => EscapeOutcome::Escaped { step },
            PassOutcome::Cycled => EscapeOutcome::Cycled,
            PassOutcome::Completed => spec_run(cx, cy, budget, (i + CYCLE_MEMORY_INTERVAL) as nat),
        }
    }
}

/// The smoothed escape-time estimate for an escape at `step` with squared
/// magnitude `mag`: `step + 2 - ln(ln(mag)) / ln 2`, every operation an
/// IEEE double-precision one and the logarithms those of [`spec_ln`].
pub open spec fn spec_smooth(step: u64, mag: u64) -> u64 {
    f64_sub(
        f64_add(f64_of_u64(step), F64_TWO),
        f64_div(spec_ln(spec_ln(mag)), spec_ln(F64_TWO)),
    )
}

/// The escape-time value of the point `(cx, cy)` under the given budget:
/// the smoothed estimate at the escape step if the orbit escapes, and the
/// bit pattern of 0.0 if it is caught in a cycle or the budget runs out
/// (the two are deliberately not told apart).
pub open spec fn spec_escape_value(cx: u64, cy: u64, budget: u64) -> u64 {
    match spec_run(cx, cy, budget, 0) {
        EscapeOutcome::Escaped { step } => {
            let s = spec_orbit(cx, cy, step);
            spec_smooth(step as u64, f64_add(s.x2, s.y2))
        },
        EscapeOutcome::Cycled => F64_ZERO,
        EscapeOutcome::Exhausted => F64_ZERO,
    }
}

/// Escape-time iteration on double bit patterns.
///
/// Runs the orbit of `(cx, cy)` in passes of twenty steps while the step
/// count stays below `max_iterations`, testing bailout before each step and
/// periodicity after it, and returns the value [`spec_escape_value`]
/// assigns: the smoothed estimate on escape, the bit pattern of 0.0
/// otherwise. The margin of twenty below `u64::MAX` keeps the step counter
/// of the last pass from overflowing.
pub fn escape_time(cx: u64, cy: u64, max_iterations: u64) -> (r: u64)
    requires
        max_iterations <= u64::MAX - 20,
    ensures
        r == spec_escape_value(cx, cy, max_iterations),
{
    let mut zx: u64 = F64_ZERO;
    let mut zy: u64 = F64_ZERO;
    let mut x2: u64 = F64_ZERO;
    let mut y2: u64 = F64_ZERO;
    let mut cycle_x: u64 = F64_ZERO;
    let mut cycle_y: u64 = F64_ZERO;
    let mut i: u64 = 0;
    while i < max_iterations
        invariant
            max_iterations <= u64::MAX - 20,
            i <= max_iterations + 19,
            zx == spec_orbit(cx, cy, i as nat).zx,
            zy == spec_orbit(cx, cy, i as nat).zy,
            x2 == spec_orbit(cx, cy, i as nat).x2,
            y2 == spec_orbit(cx, cy, i as nat).y2,
            cycle_x == zx,
            cycle_y == zy,
            spec_run(cx, cy, max_iterations, 0) == spec_run(cx, cy, max_iterations, i as nat),
        decreases max_iterations + 20 - i,
    {
        let ghost i0 = i;
        let mut k: u64 = 0;
        while k < 20
            invariant
                max_iterations <= u64::MAX - 20,
                i0 < max_iterations,
                k <= 20,
                i == i0 + k,
                zx == spec_orbit(cx, cy, i as nat).zx,
                zy == spec_orbit(cx, cy, i as nat).zy,
                x2 == spec_orbit(cx, cy, i as nat).x2,
                y2 == spec_orbit(cx, cy, i as nat).y2,
                cycle_x == spec_orbit(cx, cy, i0 as nat).zx,
                cycle_y == spec_orbit(cx, cy, i0 as nat).zy,
                spec_run(cx, cy, max_iterations, 0) == spec_run(
                    cx,
                    cy,
                    max_iterations,
                    i0 as nat,
                ),
                spec_pass(cx, cy, i0 as nat, cycle_x, cycle_y, 20) == spec_pass(
                    cx,
                    cy,
                    i as nat,
                    cycle_x,
                    cycle_y,
                    (20 - k) as nat,
                ),
            decreases 20 - k,
        {
            let s = add_bits(x2, y2);
            if lt_bits(F64_BAILOUT, s) {
                proof {
                    assert(spec_escaped_at(cx, cy, i as nat));
                    assert(spec_pass(cx, cy, i as nat, cycle_x, cycle_y, (20 - k) as nat)
                        == (PassOutcome::Escaped { step: i as nat }));
                    assert(spec_run(cx, cy, max_iterations, i0 as nat) == (EscapeOutcome::Escaped {
                        step: i as nat,
                    }));
                }
                let l1 = ln_bits(s);
                let l2 = ln_bits(l1);
                let ld = ln_bits(F64_TWO);
                let i_f = from_u64_bits(i);
                return sub_bits(add_bits(i_f, F64_TWO), div_bits(l2, ld));
            }
            zy = add_bits(mul_bits(add_bits(zx, zx), zy), cy);
            zx = add_bits(sub_bits(x2, y2), cx);
            x2 = mul_bits(zx, zx);
            y2 = mul_bits(zy, zy);
            i = i + 1;
            let dx = abs_bits(sub_bits(zx, cycle_x));
            let dy = abs_bits(sub_bits(zy, cycle_y));
            let x_approx = lt_bits(dx, F64_PERIODICITY_THRESHOLD);
            let y_approx = lt_bits(dy, F64_PERIODICITY_THRESHOLD);
            if i >= CYCLE_DETECTION_DELAY && x_approx && y_approx {
                proof {
                    assert(spec_cycle_hit(cx, cy, i as nat, cycle_x, cycle_y));
                    assert(spec_run(cx, cy, max_iterations, i0 as nat) == EscapeOutcome::Cycled);
                }
                return F64_ZERO;
            }
            k = k + 1;
        }
        proof {
            assert(spec_pass(cx, cy, i0 as nat, cycle_x, cycle_y, 20) == PassOutcome::Completed);
            assert(spec_run(cx, cy, max_iterations, i0 as nat) == spec_run(
                cx,
                cy,
                max_iterations,
                i as nat,
            ));
        }
        cycle_x = zx;
        cycle_y = zy;
    }
    F64_ZERO
}

} // verus!
