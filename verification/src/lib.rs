//! A verified setpoint actuator: the control core of a feedback-driven
//! mechanism that arbitrates between an absolute position target, tracked
//! by a pluggable feedback loop, and a manual override command.
//!
//! The library owns the decision logic of each control cycle; the embedding
//! program owns the hardware: it reads the position sensor, hands the
//! reading to [`actuator::SetpointActuator::cycle`], and forwards the
//! returned command to the physical actuators.

pub mod actuator;
pub mod command;
pub mod convergence;
pub mod errors;
pub mod feedback;
pub mod logger;
pub mod math;
pub mod presets;
pub mod units;

pub use actuator::SetpointActuator;
pub use command::{ActuatorCommand, BrakeMode, Target};
pub use feedback::{FeedbackLoop, Pid};
pub use logger::SerialLogger;
pub use presets::LadyBrownPosition;
pub use units::{Angle, Voltage};
