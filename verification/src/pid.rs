//! PID feedback controller.
//!
//! The controller holds the error history of one run — the last error and
//! the accumulated integral — and computes a steering bias from the current
//! error. All quantities are fixed-point values in units of `1 / SCALE`.

use vstd::prelude::*;
use vstd::arithmetic::div_mod::{lemma_div_is_ordered, lemma_div_multiples_vanish, lemma_div_pos_is_pos};
use crate::color::SCALE;

verus! {

/// Largest accumulated integral the controller accepts: enough for
/// `ITERATION_LIMIT` steps of a full-scale error, and small enough that
/// every intermediate product fits the machine arithmetic.
pub const INTEGRAL_LIMIT: i64 = 1_000_000_000_000;

/// Largest iteration budget a run may configure. A full-scale error
/// accumulated this many times stays within `INTEGRAL_LIMIT`.
pub const ITERATION_LIMIT: usize = 100_000_000;

/// The proportional, integral and derivative gains of a run, fixed for its
/// whole duration. Fixed-point: a gain of SCALE stands for 1.0.
#[derive(Clone, Copy, Debug)]
pub struct PidGains {
    /// Proportional gain.
    pub kp: i32,
    /// Integral gain.
    pub ki: i32,
    /// Derivative gain.
    pub kd: i32,
}

/// The error history of one run: mutated once per iteration, owned
/// exclusively by that run, and reset to zero when the run starts.
#[derive(Clone, Copy, Debug, PartialEq, Eq, Structural)]
pub struct PidState {
    /// The error of the previous step, for the derivative term.
    pub last_error: i32,
    /// The running sum of all errors, for the integral term. Accumulation
    /// is deliberately unclamped; only the final motor commands are clamped.
    pub integral: i64,
}

/// A PID controller: the gains of the run together with its error history.
#[derive(Clone, Copy, Debug)]
pub struct PidController {
    /// Gains, fixed for the run.
    pub gains: PidGains,
    /// Error history, mutated once per step.
    pub state: PidState,
}

/// Quotient of `a` by `d`, truncated toward zero.
pub open spec fn trunc_div(a: int, d: int) -> int
    recommends
        d > 0,
{
    if a >= 0 {
        a / d
    } else {
        -((-a) / d)
    }
}

/// The bias one PID step computes: the gain-weighted sum of the current
/// error, the updated integral, and the derivative against the last error,
/// scaled back down by SCALE.
pub open spec fn pid_bias(gains: PidGains, state: PidState, error: int) -> int {
    trunc_div(
        gains.kp * error + gains.ki * (state.integral + error) + gains.kd * (error
            - state.last_error),
        SCALE as int,
    )
}

impl PidController {
    /// A fresh controller for one run: the given gains and zeroed history.
    pub fn new(gains: PidGains) -> (c: PidController)
        ensures
            c.gains == gains,
            c.state == (PidState { last_error: 0, integral: 0 }),
    {
        PidController { gains, state: PidState { last_error: 0, integral: 0 } }
    }

    /// One feedback step: accumulates the error into the integral, takes the
    /// derivative against the last error, and returns the gain-weighted bias.
    /// The new state records the error as last error and keeps the grown
    /// integral; the gains stay untouched.
    pub fn step(&mut self, error: i32) -> (bias: i64)
        requires
            -SCALE <= error <= SCALE,
            -INTEGRAL_LIMIT <= old(self).state.integral <= INTEGRAL_LIMIT,
        ensures
            bias == pid_bias(old(self).gains, old(self).state, error as int),
            final(self).gains == old(self).gains,
            final(self).state.last_error == error,
            final(self).state.integral == old(self).state.integral + error,
    {
        let e: i128 = error as i128;
        let integral: i64 = self.state.integral + error as i64;
        let derivative: i128 = e - self.state.last_error as i128;
        proof {
            assert(-(0x8000_0000int * (INTEGRAL_LIMIT + SCALE)) <= self.gains.ki * (integral as int)
                <= 0x8000_0000int * (INTEGRAL_LIMIT + SCALE)) by (nonlinear_arith)
                requires
                    -0x8000_0000 <= self.gains.ki < 0x8000_0000,
                    -(INTEGRAL_LIMIT + SCALE) <= integral <= INTEGRAL_LIMIT + SCALE,
            ;
            assert(-(0x8000_0000int * (SCALE as int)) <= self.gains.kp * (error as int)
                <= 0x8000_0000int * (SCALE as int)) by (nonlinear_arith)
                requires
                    -0x8000_0000 <= self.gains.kp < 0x8000_0000,
                    -SCALE <= error <= SCALE,
            ;
            assert(-(0x8000_0000int * 0x1_0000_0000int) <= self.gains.kd * (derivative as int)
                <= 0x8000_0000int * 0x1_0000_0000int) by (nonlinear_arith)
                requires
                    -0x8000_0000 <= self.gains.kd < 0x8000_0000,
                    -0x1_0000_0000 <= derivative <= 0x1_0000_0000,
            ;
        }
        let weighted: i128 = (self.gains.kp as i128) * e + (self.gains.ki as i128) * (integral
            as i128) + (self.gains.kd as i128) * derivative;
        let bias: i64 = div_by_scale(weighted);
        self.state = PidState { last_error: error, integral };
        bias
    }
}

/// Bound on the dividend `div_by_scale` accepts; its quotient by SCALE fits
/// an i64 with room to spare.
pub const DIV_FIT: i128 = 10_000_000_000_000_000_000_000;

/// Divides a scaled product by SCALE, truncating toward zero.
pub fn div_by_scale(a: i128) -> (q: i64)
    requires
        -DIV_FIT <= a <= DIV_FIT,
    ensures
        q == trunc_div(a as int, SCALE as int),
{
    proof {
        lemma_div_pos_is_pos(if a >= 0 { a as int } else { -(a as int) }, SCALE as int);
        lemma_div_is_ordered(if a >= 0 { a as int } else { -(a as int) }, DIV_FIT as int, SCALE as int);
        lemma_div_multiples_vanish(1_000_000_000_000_000_000, SCALE as int);
        assert(DIV_FIT as int == (SCALE as int) * 1_000_000_000_000_000_000) by (nonlinear_arith);
    }
    if a >= 0 {
        let q: u128 = (a as u128) / (SCALE as u128);
        q as i64
    } else {
        let q: u128 = ((-a) as u128) / (SCALE as u128);
        -(q as i64)
    }
}

} // verus!
