//! Exact-value tests for the fixed-point PID controller.

use setpoint::feedback::{FeedbackLoop, Pid, INTEGRAL_LIMIT};

#[test]
fn first_cycle_proportional_output() {
    // Unit proportional gain, setpoint 0, measurement 90 degrees:
    // the first output is -90 volts, the proportional term alone.
    let mut p = Pid::new(1000, 0, 0, None);
    let out = p.update(0, 90_000, 10);
    assert_eq!(out, -90_000);
}

#[test]
fn proportional_gain_scaling() {
    // A gain of 0.45 volts per degree on a 10 degree error: 4.5 volts.
    let mut p = Pid::new(450, 0, 0, None);
    let out = p.update(10_000, 0, 10);
    assert_eq!(out, 4_500);
}

#[test]
fn integral_accumulates_across_cycles() {
    // Pure integral action: one degree-second of error per cycle adds
    // one volt per cycle at unit integral gain.
    let mut p = Pid::new(0, 1000, 0, None);
    assert_eq!(p.update(10_000, 0, 1000), 10_000);
    assert_eq!(p.update(10_000, 0, 1000), 20_000);
    assert_eq!(p.update(10_000, 0, 1000), 30_000);
}

#[test]
fn derivative_responds_to_error_change() {
    // Pure derivative action: the error jumps by one degree over 10 ms,
    // a rate of 100 degrees per second, so unit gain gives 100 volts;
    // once the error stops changing the term vanishes.
    let mut p = Pid::new(0, 0, 1000, None);
    assert_eq!(p.update(1_000, 0, 10), 100_000);
    assert_eq!(p.update(1_000, 0, 10), 0);
}

#[test]
fn output_limit_clamps_magnitude() {
    let mut p = Pid::new(1000, 0, 0, Some(5_000));
    assert_eq!(p.update(0, 90_000, 10), -5_000);
    let mut q = Pid::new(1000, 0, 0, Some(5_000));
    assert_eq!(q.update(90_000, 0, 10), 5_000);
}

#[test]
fn integral_saturates_at_limit() {
    // The largest admissible error held for the longest admissible cycle
    // reaches the accumulator's saturation point exactly; further cycles
    // add nothing.
    let mut p = Pid::new(0, 1000, 0, None);
    let out = p.update(1_000_000_000, -1_000_000_000, 1_000_000);
    assert_eq!(out, INTEGRAL_LIMIT);
    let out2 = p.update(1_000_000_000, -1_000_000_000, 1_000_000);
    assert_eq!(out2, INTEGRAL_LIMIT);
}

#[test]
fn rescaling_rounds_toward_zero() {
    // A 1.5 millidegree-equivalent product truncates to one millivolt,
    // toward zero on either side.
    let mut p = Pid::new(1, 0, 0, None);
    assert_eq!(p.update(1_500, 0, 10), 1);
    let mut q = Pid::new(1, 0, 0, None);
    assert_eq!(q.update(0, 1_500, 10), -1);
}

#[test]
fn zero_error_gives_zero_output() {
    let mut p = Pid::new(1000, 1000, 1000, None);
    assert_eq!(p.update(5_000, 5_000, 10), 0);
}
