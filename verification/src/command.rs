//! The value types an actuator is driven with: low-level commands and
//! the target that arbitrates between feedback control and manual override.

use vstd::prelude::*;

use crate::units::{Angle, Voltage};

verus! {

/// A braking behaviour a motor can be asked to hold.
#[derive(Clone, Copy, Debug, PartialEq, Eq, Structural)]
pub enum BrakeMode {
    /// Spin freely.
    Coast,
    /// Short the windings to resist motion.
    Brake,
    /// Actively hold the current position.
    Hold,
}

/// A direct low-level directive for an actuator.
#[derive(Clone, Copy, Debug, PartialEq, Eq, Structural)]
pub enum ActuatorCommand {
    /// Apply a raw drive voltage.
    Voltage(Voltage),
    /// Apply a braking behaviour.
    Brake(BrakeMode),
}

/// What the actuator should currently do. At most one variant is active
/// at any instant: position control and manual override are mutually
/// exclusive, never blended.
#[derive(Clone, Copy, Debug, PartialEq, Eq, Structural)]
pub enum Target {
    /// Drive toward an absolute rotational position under feedback control.
    Setpoint(Angle),
    /// Bypass feedback control entirely and forward the command as given.
    Manual(ActuatorCommand),
}

} // verus!
