//! Error taxonomy. Every failure here is transient by policy: sensor and
//! actuator faults are logged and the control loop carries on; only a
//! misconfiguration at construction time is surfaced to the caller.

use vstd::prelude::*;

verus! {

/// A transient failure while reading the position sensor.
#[derive(Clone, Copy, Debug, PartialEq, Eq, Structural)]
pub enum SensorError {
    /// No device answered on the sensor's port.
    Disconnected,
    /// The device answered but the sample was unusable.
    BadReading,
}

/// A transient failure while writing a command to an actuator.
#[derive(Clone, Copy, Debug, PartialEq, Eq, Structural)]
pub enum ActuatorError {
    /// No device answered on the actuator's port.
    Disconnected,
    /// The device refused the command.
    Busy,
}

/// A misconfiguration detected when the actuator is constructed.
#[derive(Clone, Copy, Debug, PartialEq, Eq, Structural)]
pub enum ConfigError {
    /// An actuator group must drive at least one physical actuator.
    NoActuators,
}

/// A failure to initialise the logging sink.
#[derive(Clone, Copy, Debug, PartialEq, Eq, Structural)]
pub enum LoggerError {
    /// The sink was already initialised once.
    AlreadyInitialized,
}

} // verus!
