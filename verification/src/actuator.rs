//! The setpoint actuator: the decision core of a feedback-driven mechanism.
//!
//! The actuator arbitrates between two mutually exclusive modes, chosen by
//! the most recently set [`Target`]: driving toward an absolute position
//! under feedback control, or forwarding a manual command unchanged.
//!
//! The embedding program runs the periodic loop. Once per cycle it reads
//! the position sensor, calls [`SetpointActuator::cycle`] with the reading
//! and the elapsed time, forwards the returned command (if any) to each of
//! the physical actuators, and sleeps until the next cycle boundary. All
//! policy lives here and is verified:
//!
//! * a manual target bypasses the feedback loop entirely, leaving its
//!   accumulator state untouched;
//! * a setpoint target turns a successful reading into one feedback step
//!   and a voltage command;
//! * a failed reading skips the cycle — nothing is issued, nothing of the
//!   controller state changes, one warning is recorded — and the next
//!   cycle proceeds as if the failure had not happened.
//!
//! Replacing the target never resets the feedback loop's accumulator; by
//! design the controller state advances exactly when a setpoint cycle
//! succeeds, and on no other occasion.

use vstd::prelude::*;

use crate::command::{ActuatorCommand, Target};
use crate::errors::{ActuatorError, ConfigError, SensorError};
use crate::feedback::FeedbackLoop;
use crate::logger::{Level, LogEvent, LogRecord, SerialLogger};
use crate::units::{Angle, Voltage};

verus! {

/// A group of identically driven actuators under one target, one position
/// sensor and one feedback loop.
pub struct SetpointActuator<F: FeedbackLoop> {
    /// The currently active target. Written by [`SetpointActuator::set_target`],
    /// read once per cycle.
    pub target: Target,
    /// How many physical actuators the issued command is forwarded to.
    pub actuator_count: usize,
    /// The feedback controller; its accumulator state persists across
    /// cycles and advances only on successful setpoint cycles.
    pub feedback: F,
    /// The command most recently issued by a cycle, if any cycle has
    /// issued one. A skipped cycle leaves it unchanged: the hardware
    /// retains what it was last told.
    pub last_applied: Option<ActuatorCommand>,
    /// The sink per-cycle failures are reported to.
    pub logger: SerialLogger,
}

impl<F: FeedbackLoop> SetpointActuator<F> {
    /// Well-formedness: at least one actuator, a well-formed controller.
    pub open spec fn wf(self) -> bool {
        &&& self.actuator_count >= 1
        &&& self.feedback.wf()
    }

    /// This actuator with `t` as the active target and everything else
    /// unchanged: the state [`SetpointActuator::set_target`] leaves behind.
    pub open spec fn with_target(self, t: Target) -> Self {
        SetpointActuator { target: t, ..self }
    }

    /// The inputs on which a cycle is defined: when a setpoint is tracked
    /// and the reading succeeded, the feedback step must be within the
    /// controller's input range.
    pub open spec fn cycle_input_ok(self, reading: Result<Angle, SensorError>, dt_ms: int) -> bool {
        match (self.target, reading) {
            (Target::Setpoint(p), Ok(m)) => self.feedback.input_ok(
                p.millidegrees as int,
                m.millidegrees as int,
                dt_ms,
            ),
            _ => true,
        }
    }

    /// The command a cycle issues, if any: a manual target is forwarded
    /// unchanged whatever the sensor said; a setpoint target yields the
    /// feedback output on a successful reading and nothing on a failure.
    pub open spec fn cycle_command(self, reading: Result<Angle, SensorError>, dt_ms: int) -> Option<
        ActuatorCommand,
    > {
        match self.target {
            Target::Manual(cmd) => Some(cmd),
            Target::Setpoint(p) => match reading {
                Ok(m) => Some(
                    ActuatorCommand::Voltage(
                        Voltage {
                            millivolts: self.feedback.output_of(
                                p.millidegrees as int,
                                m.millidegrees as int,
                                dt_ms,
                            ) as i64,
                        },
                    ),
                ),
                Err(_) => None,
            },
        }
    }

    /// The controller state after a cycle: advanced by one step exactly
    /// when a setpoint was tracked and the reading succeeded.
    pub open spec fn feedback_after(self, reading: Result<Angle, SensorError>, dt_ms: int) -> F {
        match (self.target, reading) {
            (Target::Setpoint(p), Ok(m)) => self.feedback.stepped(
                p.millidegrees as int,
                m.millidegrees as int,
                dt_ms,
            ),
            _ => self.feedback,
        }
    }

    /// The last applied command after a cycle: replaced when the cycle
    /// issued one, retained when the cycle was skipped.
    pub open spec fn last_applied_after(
        self,
        reading: Result<Angle, SensorError>,
        dt_ms: int,
    ) -> Option<ActuatorCommand> {
        match self.cycle_command(reading, dt_ms) {
            Some(cmd) => Some(cmd),
            None => self.last_applied,
        }
    }

    /// The record buffer after a cycle: one warning appended when a
    /// setpoint cycle was skipped on a sensor failure, unchanged otherwise.
    pub open spec fn log_after(self, reading: Result<Angle, SensorError>, dt_ms: int) -> Seq<
        LogRecord,
    > {
        match (self.target, reading) {
            (Target::Setpoint(_), Err(e)) => self.logger.recorded(
                Level::Warn,
                LogEvent::SensorFailure(e),
            ),
            _ => self.logger.records@,
        }
    }

    /// Construct an actuator group. Fails exactly when the group would
    /// drive no actuator at all; otherwise the actuator starts with the
    /// given target active, no command issued yet and an empty log.
    pub fn new(actuator_count: usize, feedback: F, initial_target: Target) -> (r: Result<
        Self,
        ConfigError,
    >)
        requires
            feedback.wf(),
        ensures
            r is Err <==> actuator_count == 0,
            r matches Err(e) ==> e == ConfigError::NoActuators,
            r matches Ok(a) ==> {
                &&& a.wf()
                &&& a.target == initial_target
                &&& a.actuator_count == actuator_count
                &&& a.feedback == feedback
                &&& a.last_applied is None
                &&& !a.logger.initialized
                &&& a.logger.level == crate::logger::LevelFilter::Trace
                &&& a.logger.records@ == Seq::<LogRecord>::empty()
            },
    {
        if actuator_count == 0 {
            Err(ConfigError::NoActuators)
        } else {
            Ok(
                SetpointActuator {
                    target: initial_target,
                    actuator_count,
                    feedback,
                    last_applied: None,
                    logger: SerialLogger::new(),
                },
            )
        }
    }

    /// Replace the current target. Always succeeds, overwrites any
    /// previous target unconditionally, and changes nothing else; it takes
    /// effect on the next cycle.
    pub fn set_target(&mut self, target: Target)
        ensures
            *final(self) == old(self).with_target(target),
    {
        self.target = target;
    }

    /// The currently active target.
    pub fn target(&self) -> (t: Target)
        ensures
            t == self.target,
    {
        self.target
    }

    /// Run one control cycle on a sensor reading taken `dt_ms` ago
    /// relative to the previous cycle.
    ///
    /// Returns the command to forward to each of the group's actuators,
    /// or `None` when the cycle is skipped. Never fails: a sensor failure
    /// is recorded in the log and the cycle is skipped; the target and the
    /// log filter are never touched.
    pub fn cycle(&mut self, reading: Result<Angle, SensorError>, dt_ms: i64) -> (issued: Option<
        ActuatorCommand,
    >)
        requires
            old(self).wf(),
            old(self).cycle_input_ok(reading, dt_ms as int),
        ensures
            final(self).wf(),
            issued == old(self).cycle_command(reading, dt_ms as int),
            final(self).target == old(self).target,
            final(self).actuator_count == old(self).actuator_count,
            final(self).feedback == old(self).feedback_after(reading, dt_ms as int),
            final(self).last_applied == old(self).last_applied_after(reading, dt_ms as int),
            final(self).logger.records@ == old(self).log_after(reading, dt_ms as int),
            final(self).logger.initialized == old(self).logger.initialized,
            final(self).logger.level == old(self).logger.level,
    {
        let issued: Option<ActuatorCommand> = match self.target {
            Target::Manual(cmd) => Some(cmd),
            Target::Setpoint(p) => match reading {
                Ok(m) => {
                    let out = self.feedback.update(
                        p.as_millidegrees(),
                        m.as_millidegrees(),
                        dt_ms,
                    );
                    Some(ActuatorCommand::Voltage(Voltage::from_millivolts(out)))
                },
                Err(e) => {
                    self.logger.log(Level::Warn, LogEvent::SensorFailure(e));
                    None
                },
            },
        };
        if let Some(cmd) = issued {
            self.last_applied = Some(cmd);
        }
        issued
    }

    /// Record an actuator write failure reported by the embedding program.
    /// The policy is log-and-continue: the failure never aborts the loop,
    /// and the rest of the group still receives its command.
    pub fn log_actuator_failure(&mut self, error: ActuatorError)
        ensures
            final(self).logger.records@ == old(self).logger.recorded(
                Level::Warn,
                LogEvent::ActuatorFailure(error),
            ),
            final(self).logger.initialized == old(self).logger.initialized,
            final(self).logger.level == old(self).logger.level,
            final(self).target == old(self).target,
            final(self).actuator_count == old(self).actuator_count,
            final(self).feedback == old(self).feedback,
            final(self).last_applied == old(self).last_applied,
    {
        self.logger.log(Level::Warn, LogEvent::ActuatorFailure(error));
    }
}

/// Mode exclusivity: the most recently set target alone fixes the class
/// of the next cycle. A manual target forwards exactly its command,
/// whatever the sensor said; a setpoint target actuates exactly when the
/// reading succeeded, and then with the feedback output; the two modes
/// are never blended.
pub proof fn lemma_mode_exclusivity<F: FeedbackLoop>(
    a: SetpointActuator<F>,
    t: Target,
    reading: Result<Angle, SensorError>,
    dt_ms: int,
)
    ensures
        t matches Target::Manual(cmd) ==> a.with_target(t).cycle_command(reading, dt_ms)
            == Some(cmd),
        t is Setpoint ==> (a.with_target(t).cycle_command(reading, dt_ms) is None <==> reading
            is Err),
        t matches Target::Setpoint(p) ==> reading matches Ok(m) ==> a.with_target(
            t,
        ).cycle_command(reading, dt_ms) == Some(
            ActuatorCommand::Voltage(
                Voltage {
                    millivolts: a.feedback.output_of(
                        p.millidegrees as int,
                        m.millidegrees as int,
                        dt_ms,
                    ) as i64,
                },
            ),
        ),
{
}

/// The most recently set target governs: two actuators whose controllers
/// agree behave identically once the same target is set, however their
/// earlier targets, logs or issued commands differed.
pub proof fn lemma_latest_target_governs<F: FeedbackLoop>(
    a: SetpointActuator<F>,
    b: SetpointActuator<F>,
    t: Target,
    reading: Result<Angle, SensorError>,
    dt_ms: int,
)
    requires
        a.feedback == b.feedback,
    ensures
        a.with_target(t).cycle_command(reading, dt_ms) == b.with_target(t).cycle_command(
            reading,
            dt_ms,
        ),
        a.with_target(t).feedback_after(reading, dt_ms) == b.with_target(t).feedback_after(
            reading,
            dt_ms,
        ),
{
}

/// Manual bypass: while a manual target is active, a cycle never touches
/// the feedback accumulator; and the first setpoint cycle afterward
/// computes its output from exactly the accumulator state from before the
/// manual period — no silent reset occurs on a target change.
pub proof fn lemma_manual_bypass<F: FeedbackLoop>(
    a: SetpointActuator<F>,
    cmd: ActuatorCommand,
    p: Angle,
    manual_reading: Result<Angle, SensorError>,
    m: Angle,
    dt1_ms: int,
    dt2_ms: int,
)
    ensures
        a.with_target(Target::Manual(cmd)).feedback_after(manual_reading, dt1_ms) == a.feedback,
        a.with_target(Target::Manual(cmd)).with_target(Target::Setpoint(p)).cycle_command(
            Ok(m),
            dt2_ms,
        ) == Some(
            ActuatorCommand::Voltage(
                Voltage {
                    millivolts: a.feedback.output_of(
                        p.millidegrees as int,
                        m.millidegrees as int,
                        dt2_ms,
                    ) as i64,
                },
            ),
        ),
{
}

/// Sensor-failure resilience: a failed read under a setpoint target skips
/// the cycle. Nothing is issued, the last applied command and the
/// controller state are unchanged, exactly one warning is recorded, and a
/// following cycle behaves as if the failed cycle had not happened.
pub proof fn lemma_sensor_failure_skips<F: FeedbackLoop>(
    a: SetpointActuator<F>,
    b: SetpointActuator<F>,
    e: SensorError,
    next_reading: Result<Angle, SensorError>,
    dt1_ms: int,
    dt2_ms: int,
)
    requires
        a.target is Setpoint,
        b.target == a.target,
        b.feedback == a.feedback_after(Err(e), dt1_ms),
    ensures
        a.cycle_command(Err(e), dt1_ms) is None,
        a.last_applied_after(Err(e), dt1_ms) == a.last_applied,
        a.feedback_after(Err(e), dt1_ms) == a.feedback,
        a.log_after(Err(e), dt1_ms) == a.logger.recorded(
            Level::Warn,
            LogEvent::SensorFailure(e),
        ),
        b.cycle_command(next_reading, dt2_ms) == a.cycle_command(next_reading, dt2_ms),
        b.feedback_after(next_reading, dt2_ms) == a.feedback_after(next_reading, dt2_ms),
{
}

/// Idempotent target re-application: setting the same target twice leaves
/// the actuator in exactly the state one call leaves it in.
pub proof fn lemma_set_target_idempotent<F: FeedbackLoop>(a: SetpointActuator<F>, t: Target)
    ensures
        a.with_target(t).with_target(t) == a.with_target(t),
{
}

/// Targets are overwritten unconditionally, never queued: of two
/// successive replacements only the later one is ever observable.
pub proof fn lemma_set_target_overwrites<F: FeedbackLoop>(
    a: SetpointActuator<F>,
    earlier: Target,
    later: Target,
)
    ensures
        a.with_target(earlier).with_target(later) == a.with_target(later),
{
}

} // verus!
