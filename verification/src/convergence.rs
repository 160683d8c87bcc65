//! Convergence of the proportional feedback loop.
//!
//! The plant model is first order: applying a voltage for one cycle moves
//! the measured position in proportion to it. Under the standard stability
//! condition for such a loop — the per-cycle loop gain lies between one
//! half and one — the closed loop never overshoots and the error at least
//! halves (up to rounding) every cycle, so the measurement settles to
//! within a small fixed tolerance of the setpoint after at most as many
//! cycles as the initial error has millidegrees.

use vstd::prelude::*;

use vstd::math::abs;
use vstd::math::max;

use crate::feedback::{pid_output, pid_stepped, Pid};
use crate::math::{lemma_tdiv_bounds, lemma_tdiv_exact_window, lemma_tdiv_neg, tdiv};

verus! {

/// The tolerance, in millidegrees, the closed loop settles within: less
/// than a hundredth of a degree.
pub const CONVERGENCE_TOLERANCE: i64 = 8;

/// A purely proportional controller: no integral or derivative action and
/// no output clamp, so its output depends only on the current error.
pub open spec fn p_only(p: Pid) -> bool {
    &&& p.ki == 0
    &&& p.kd == 0
    &&& p.output_limit is None
}

/// The stability condition of the closed loop: the plant responds in the
/// commanded direction, not too fast, and the per-cycle loop gain
/// `kp * g` (scaled by one million) lies between one half and one.
pub open spec fn stable_gains(kp: int, g: int) -> bool {
    &&& 1 <= kp
    &&& 1 <= g <= 2000
    &&& 500_000 <= kp * g <= 1_000_000
}

/// The first-order plant: holding `out_mv` millivolts for one cycle moves
/// the measured position by `g * out_mv / 1000` millidegrees, where `g`
/// is the plant's response over one cycle period.
pub open spec fn plant_after(m: int, out_mv: int, g: int) -> int {
    m + tdiv(g * out_mv, 1000)
}

/// One closed-loop cycle: the controller steps on the measurement and the
/// plant responds to the issued output.
pub open spec fn sim_cycle(p: Pid, s: int, m: int, g: int, dt: int) -> (Pid, int) {
    (pid_stepped(p, s, m, dt), plant_after(m, pid_output(p, s, m, dt), g))
}

/// Controller state and plant measurement after `n` closed-loop cycles
/// from state `p` and measurement `m0`, tracking setpoint `s`.
pub open spec fn sim_after(p: Pid, s: int, m0: int, g: int, dt: int, n: nat) -> (Pid, int)
    decreases n,
{
    if n == 0 {
        (p, m0)
    } else {
        let prev = sim_after(p, s, m0, g, dt, (n - 1) as nat);
        sim_cycle(prev.0, s, prev.1, g, dt)
    }
}

/// A proportional controller's output is `kp * error / 1000` from any
/// accumulator state, and a step preserves its gains and configuration.
pub proof fn lemma_p_only_output(p: Pid, s: int, m: int, dt: int)
    requires
        p_only(p),
        dt >= 1,
    ensures
        pid_output(p, s, m, dt) == tdiv(p.kp * (s - m), 1000),
        p_only(pid_stepped(p, s, m, dt)),
        pid_stepped(p, s, m, dt).kp == p.kp,
{
    lemma_tdiv_bounds(0, dt);
}

/// The nonlinear core of the one-cycle contraction: given the two
/// truncated quotients of the proportional output and the plant response,
/// characterized by their division windows, the error never changes sign
/// and at least halves up to a rounding slack of three millidegrees.
proof fn lemma_step_core(e: int, kp: int, g: int, q: int, r: int)
    by (nonlinear_arith)
    requires
        0 <= e,
        1 <= kp,
        1 <= g <= 2000,
        500_000 <= kp * g <= 1_000_000,
        0 <= q,
        1000 * q <= kp * e < 1000 * q + 1000,
        1000 * r <= g * q < 1000 * r + 1000,
    ensures
        0 <= e - r,
        e - r <= e / 2 + 3,
{
}

/// One closed-loop cycle contracts a non-negative error: the new error
/// `e - tdiv(g * tdiv(kp * e, 1000), 1000)` stays non-negative (no
/// overshoot) and is at most `e / 2 + 3`.
pub proof fn lemma_step_contracts(e: int, kp: int, g: int)
    requires
        0 <= e,
        stable_gains(kp, g),
    ensures
        0 <= e - tdiv(g * tdiv(kp * e, 1000), 1000),
        e - tdiv(g * tdiv(kp * e, 1000), 1000) <= e / 2 + 3,
{
    assert(0 <= kp * e && kp * e <= kp * e) by (nonlinear_arith)
        requires
            0 <= e,
            1 <= kp,
    ;
    let q = tdiv(kp * e, 1000);
    lemma_tdiv_exact_window(kp * e, 1000);
    lemma_tdiv_bounds(kp * e, 1000);
    assert(0 <= g * q) by (nonlinear_arith)
        requires
            0 <= q,
            1 <= g,
    ;
    let r = tdiv(g * q, 1000);
    lemma_tdiv_exact_window(g * q, 1000);
    lemma_step_core(e, kp, g, q, r);
}

/// The closed-loop error map is odd in the error: a negated error yields
/// the negated correction.
pub proof fn lemma_step_odd(e: int, kp: int, g: int)
    requires
        1 <= kp,
        1 <= g,
    ensures
        tdiv(g * tdiv(kp * (-e), 1000), 1000) == -tdiv(g * tdiv(kp * e, 1000), 1000),
{
    assert(kp * (-e) == -(kp * e)) by (nonlinear_arith);
    lemma_tdiv_neg(kp * e, 1000);
    let q = tdiv(kp * e, 1000);
    assert(g * (-q) == -(g * q)) by (nonlinear_arith);
    lemma_tdiv_neg(g * q, 1000);
}

/// The error after `n` closed-loop cycles is bounded by the larger of the
/// tolerance and the initial error magnitude less one millidegree per
/// cycle, and the controller stays proportional with its gain unchanged.
pub proof fn lemma_sim_error_bound(p: Pid, s: int, m0: int, g: int, dt: int, n: nat)
    requires
        p_only(p),
        stable_gains(p.kp as int, g),
        dt >= 1,
    ensures
        p_only(sim_after(p, s, m0, g, dt, n).0),
        sim_after(p, s, m0, g, dt, n).0.kp == p.kp,
        -max(CONVERGENCE_TOLERANCE as int, abs(s - m0) - n) <= s - sim_after(
            p,
            s,
            m0,
            g,
            dt,
            n,
        ).1 <= max(CONVERGENCE_TOLERANCE as int, abs(s - m0) - n),
    decreases n,
{
    if n > 0 {
        lemma_sim_error_bound(p, s, m0, g, dt, (n - 1) as nat);
        let prev = sim_after(p, s, m0, g, dt, (n - 1) as nat);
        let e = s - prev.1;
        lemma_p_only_output(prev.0, s, prev.1, dt);
        let kp = p.kp as int;
        let r = tdiv(g * tdiv(kp * e, 1000), 1000);
        if e >= 0 {
            lemma_step_contracts(e, kp, g);
        } else {
            lemma_step_contracts(-e, kp, g);
            lemma_step_odd(e, kp, g);
        }
    }
}

/// Convergence: a proportional controller under the stability condition,
/// tracking a fixed setpoint on a first-order plant, brings the measured
/// position to within [`CONVERGENCE_TOLERANCE`] of the setpoint after at
/// most as many cycles as the initial error has millidegrees, and keeps
/// it there.
pub proof fn lemma_p_loop_convergence(p: Pid, s: int, m0: int, g: int, dt: int, n: nat)
    requires
        p_only(p),
        stable_gains(p.kp as int, g),
        dt >= 1,
        n >= abs(s - m0),
    ensures
        abs(s - sim_after(p, s, m0, g, dt, n).1) <= CONVERGENCE_TOLERANCE,
{
    lemma_sim_error_bound(p, s, m0, g, dt, n);
}

} // verus!
