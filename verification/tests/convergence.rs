//! Closed-loop simulations: a proportional controller driving a
//! first-order plant through the actuator converges to the setpoint.

use setpoint::actuator::SetpointActuator;
use setpoint::command::{ActuatorCommand, Target};
use setpoint::feedback::Pid;
use setpoint::units::Angle;

/// First-order plant: holding `out` millivolts for one cycle moves the
/// measured position by `g * out / 1000` millidegrees (Rust's `/` on
/// integers rounds toward zero, as the library's arithmetic does).
fn plant_step(m: i64, out: i64, g: i64) -> i64 {
    m + g * out / 1000
}

fn run_loop(setpoint_md: i64, start_md: i64, kp: i64, g: i64) -> (i64, u32) {
    let mut a = SetpointActuator::new(
        1,
        Pid::new(kp, 0, 0, None),
        Target::Setpoint(Angle::from_millidegrees(setpoint_md)),
    )
    .unwrap();
    let mut m = start_md;
    let mut cycles: u32 = 0;
    while (setpoint_md - m).abs() > 8 {
        match a.cycle(Ok(Angle::from_millidegrees(m)), 10) {
            Some(ActuatorCommand::Voltage(v)) => {
                m = plant_step(m, v.as_millivolts(), g);
            }
            other => panic!("setpoint cycle issued {:?}", other),
        }
        cycles += 1;
        assert!(cycles as i64 <= (setpoint_md - start_md).abs());
    }
    (m, cycles)
}

#[test]
fn loop_converges_from_above() {
    // Loop gain 0.6: the measurement settles within the tolerance in at
    // most as many cycles as the initial error has millidegrees, and in
    // practice far fewer.
    let (m, cycles) = run_loop(0, 90_000, 600, 1000);
    assert!((0 - m).abs() <= 8);
    assert!(cycles <= 30);
}

#[test]
fn loop_converges_from_below() {
    let (m, cycles) = run_loop(45_000, -20_000, 500, 2000);
    assert!((45_000 - m).abs() <= 8);
    assert!(cycles <= 30);
}

#[test]
fn loop_never_overshoots() {
    // Under the stability condition the error keeps its sign: starting
    // below the setpoint, the measurement never passes it.
    let setpoint: i64 = 10_000;
    let mut a = SetpointActuator::new(
        1,
        Pid::new(900, 0, 0, None),
        Target::Setpoint(Angle::from_millidegrees(setpoint)),
    )
    .unwrap();
    let mut m: i64 = -30_000;
    for _ in 0..200 {
        if let Some(ActuatorCommand::Voltage(v)) = a.cycle(Ok(Angle::from_millidegrees(m)), 10) {
            m = plant_step(m, v.as_millivolts(), 1000);
        }
        assert!(m <= setpoint);
    }
    assert!((setpoint - m).abs() <= 8);
}

#[test]
fn unit_loop_gain_settles_in_one_cycle() {
    // kp * g == one million: the first command cancels the error exactly.
    let (m, cycles) = run_loop(0, 90_000, 1000, 1000);
    assert_eq!(m, 0);
    assert_eq!(cycles, 1);
}
