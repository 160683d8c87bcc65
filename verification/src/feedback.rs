//! Feedback control. [`FeedbackLoop`] is the capability the actuator is
//! parameterized over: a stateful map from (setpoint, measurement, elapsed
//! time) to a corrective output. [`Pid`] is the standard implementation,
//! a proportional-integral-derivative controller in exact fixed-point
//! arithmetic.
//!
//! Scaling conventions: angles are in millidegrees, voltages in millivolts,
//! time in milliseconds, and gains in thousandths, so that a proportional
//! gain of `1000` means one volt of output per degree of error. The
//! integral accumulator is kept in millidegree-seconds.

use vstd::prelude::*;

use crate::math::{clamp_i64, clamp_int, div_trunc, lemma_mul_abs_bound, lemma_tdiv_bounds, tdiv};
use crate::units::ANGLE_LIMIT_MILLIDEGREES;

verus! {

/// Largest gain magnitude accepted, in thousandths (a gain of 1000.0).
pub const GAIN_LIMIT: i64 = 1_000_000;

/// Longest cycle period accepted, in milliseconds.
pub const DT_LIMIT_MS: i64 = 1_000_000;

/// Magnitude at which the integral accumulator saturates, in
/// millidegree-seconds. Saturation bounds wind-up and keeps the integral
/// term's arithmetic exact.
pub const INTEGRAL_LIMIT: i64 = 2_000_000_000_000;

/// A stateful feedback controller. The internal accumulator state persists
/// across calls and is never reset implicitly; it advances exactly once
/// per [`FeedbackLoop::update`] call.
pub trait FeedbackLoop: Sized {
    /// Well-formedness of the controller's configuration and state.
    spec fn wf(self) -> bool;

    /// The inputs on which one update step is defined.
    spec fn input_ok(self, setpoint: int, measurement: int, dt_ms: int) -> bool;

    /// The corrective output of one update step from this state.
    spec fn output_of(self, setpoint: int, measurement: int, dt_ms: int) -> int;

    /// The controller state after one update step.
    spec fn stepped(self, setpoint: int, measurement: int, dt_ms: int) -> Self;

    /// Advance the controller by one step and return the corrective
    /// output, in millivolts.
    fn update(&mut self, setpoint: i64, measurement: i64, dt_ms: i64) -> (out: i64)
        requires
            old(self).wf(),
            old(self).input_ok(setpoint as int, measurement as int, dt_ms as int),
        ensures
            final(self).wf(),
            out == old(self).output_of(setpoint as int, measurement as int, dt_ms as int),
            *final(self) == old(self).stepped(setpoint as int, measurement as int, dt_ms as int),
    ;
}

/// A proportional-integral-derivative controller over fixed-point values.
///
/// One step on error `e = setpoint - measurement` computes
/// `kp*e + ki*I + kd*(e - previous_e)/dt`, where `I` is the saturating
/// running sum of `e*dt`, every product is rescaled by truncating
/// division, and the result is clamped to `output_limit` when one is set.
#[derive(Clone, Copy, Debug, PartialEq, Eq, Structural)]
pub struct Pid {
    /// Proportional gain, in thousandths.
    pub kp: i64,
    /// Integral gain, in thousandths.
    pub ki: i64,
    /// Derivative gain, in thousandths.
    pub kd: i64,
    /// Clamp applied to the output magnitude, in millivolts, if any.
    pub output_limit: Option<i64>,
    /// Running error sum, in millidegree-seconds.
    pub integral: i64,
    /// Error of the previous step, in millidegrees.
    pub prev_error: i64,
}

/// The integral accumulator after one step: the error-times-time increment
/// is added, then the sum saturates at [`INTEGRAL_LIMIT`].
pub open spec fn pid_integral_next(p: Pid, s: int, m: int, dt: int) -> int {
    clamp_int(
        p.integral + tdiv((s - m) * dt, 1000),
        -INTEGRAL_LIMIT as int,
        INTEGRAL_LIMIT as int,
    )
}

/// The sum of the proportional, integral and derivative terms, before the
/// output clamp.
pub open spec fn pid_raw_output(p: Pid, s: int, m: int, dt: int) -> int {
    tdiv(p.kp * (s - m), 1000) + tdiv(p.ki * pid_integral_next(p, s, m, dt), 1000) + tdiv(
        p.kd * ((s - m) - p.prev_error),
        dt,
    )
}

/// The output of one step: the raw term sum, clamped to the configured
/// output limit when one is set.
pub open spec fn pid_output(p: Pid, s: int, m: int, dt: int) -> int {
    match p.output_limit {
        Some(l) => clamp_int(pid_raw_output(p, s, m, dt), -l as int, l as int),
        None => pid_raw_output(p, s, m, dt),
    }
}

/// The controller state after one step: gains and limit unchanged, the
/// integral advanced, and the step's error remembered.
pub open spec fn pid_stepped(p: Pid, s: int, m: int, dt: int) -> Pid {
    Pid {
        integral: pid_integral_next(p, s, m, dt) as i64,
        prev_error: (s - m) as i64,
        ..p
    }
}

impl Pid {
    /// Construct a controller with zeroed accumulator state.
    pub fn new(kp: i64, ki: i64, kd: i64, output_limit: Option<i64>) -> (p: Pid)
        requires
            -GAIN_LIMIT <= kp <= GAIN_LIMIT,
            -GAIN_LIMIT <= ki <= GAIN_LIMIT,
            -GAIN_LIMIT <= kd <= GAIN_LIMIT,
            output_limit matches Some(l) ==> l >= 0,
        ensures
            p == (Pid { kp, ki, kd, output_limit, integral: 0, prev_error: 0 }),
            p.wf(),
    {
        Pid { kp, ki, kd, output_limit, integral: 0, prev_error: 0 }
    }
}

impl FeedbackLoop for Pid {
    open spec fn wf(self) -> bool {
        &&& -GAIN_LIMIT <= self.kp <= GAIN_LIMIT
        &&& -GAIN_LIMIT <= self.ki <= GAIN_LIMIT
        &&& -GAIN_LIMIT <= self.kd <= GAIN_LIMIT
        &&& -INTEGRAL_LIMIT <= self.integral <= INTEGRAL_LIMIT
        &&& -2 * ANGLE_LIMIT_MILLIDEGREES <= self.prev_error <= 2 * ANGLE_LIMIT_MILLIDEGREES
        &&& self.output_limit matches Some(l) ==> l >= 0
    }

    open spec fn input_ok(self, setpoint: int, measurement: int, dt_ms: int) -> bool {
        &&& -ANGLE_LIMIT_MILLIDEGREES <= setpoint <= ANGLE_LIMIT_MILLIDEGREES
        &&& -ANGLE_LIMIT_MILLIDEGREES <= measurement <= ANGLE_LIMIT_MILLIDEGREES
        &&& 1 <= dt_ms <= DT_LIMIT_MS
    }

    open spec fn output_of(self, setpoint: int, measurement: int, dt_ms: int) -> int {
        pid_output(self, setpoint, measurement, dt_ms)
    }

    open spec fn stepped(self, setpoint: int, measurement: int, dt_ms: int) -> Pid {
        pid_stepped(self, setpoint, measurement, dt_ms)
    }

    fn update(&mut self, setpoint: i64, measurement: i64, dt_ms: i64) -> (out: i64) {
        let e = setpoint - measurement;
        proof {
            lemma_mul_abs_bound(e as int, dt_ms as int, 2 * ANGLE_LIMIT_MILLIDEGREES as int, DT_LIMIT_MS as int);
            lemma_tdiv_bounds((e * dt_ms) as int, 1000);
        }
        let accum = div_trunc(e * dt_ms, 1000);
        let i2 = clamp_i64(self.integral + accum, -INTEGRAL_LIMIT, INTEGRAL_LIMIT);
        proof {
            lemma_mul_abs_bound(self.kp as int, e as int, GAIN_LIMIT as int, 2 * ANGLE_LIMIT_MILLIDEGREES as int);
            lemma_tdiv_bounds((self.kp * e) as int, 1000);
            lemma_mul_abs_bound(self.ki as int, i2 as int, GAIN_LIMIT as int, INTEGRAL_LIMIT as int);
            lemma_tdiv_bounds((self.ki * i2) as int, 1000);
            lemma_mul_abs_bound(self.kd as int, (e - self.prev_error) as int, GAIN_LIMIT as int, 4 * ANGLE_LIMIT_MILLIDEGREES as int);
            lemma_tdiv_bounds((self.kd * (e - self.prev_error)) as int, dt_ms as int);
        }
        let p_term = div_trunc(self.kp * e, 1000);
        let i_term = div_trunc(self.ki * i2, 1000);
        let d_term = div_trunc(self.kd * (e - self.prev_error), dt_ms);
        let raw = p_term + i_term + d_term;
        let out = match self.output_limit {
            Some(l) => clamp_i64(raw, -l, l),
            None => raw,
        };
        self.integral = i2;
        self.prev_error = e;
        out
    }
}

} // verus!
