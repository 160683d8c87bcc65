//! The logging sink failures are reported to. Reporting is fire-and-forget:
//! nothing in the control path ever waits on, or fails because of, the sink.
//!
//! The sink buffers structured records in memory; the embedding program
//! decides if and how to ship them to a host console.

use vstd::prelude::*;

use crate::errors::{ActuatorError, LoggerError, SensorError};

verus! {

/// Severity of a record, from most to least severe.
#[derive(Clone, Copy, Debug, PartialEq, Eq, Structural)]
pub enum Level {
    Error,
    Warn,
    Info,
    Debug,
    Trace,
}

/// The least severe level a sink lets through; `Off` admits nothing.
#[derive(Clone, Copy, Debug, PartialEq, Eq, Structural)]
pub enum LevelFilter {
    Off,
    Error,
    Warn,
    Info,
    Debug,
    Trace,
}

/// Severity as a number, for comparison: higher means less severe.
pub open spec fn level_rank(l: Level) -> int {
    match l {
        Level::Error => 1,
        Level::Warn => 2,
        Level::Info => 3,
        Level::Debug => 4,
        Level::Trace => 5,
    }
}

/// Admission threshold as a number on the same scale as [`level_rank`].
pub open spec fn filter_rank(f: LevelFilter) -> int {
    match f {
        LevelFilter::Off => 0,
        LevelFilter::Error => 1,
        LevelFilter::Warn => 2,
        LevelFilter::Info => 3,
        LevelFilter::Debug => 4,
        LevelFilter::Trace => 5,
    }
}

/// What a record reports.
#[derive(Clone, Copy, Debug, PartialEq, Eq, Structural)]
pub enum LogEvent {
    /// A position sensor read failed and the cycle was skipped.
    SensorFailure(SensorError),
    /// An actuator refused a command and was skipped.
    ActuatorFailure(ActuatorError),
}

/// One buffered record.
#[derive(Clone, Copy, Debug, PartialEq, Eq, Structural)]
pub struct LogRecord {
    pub level: Level,
    pub event: LogEvent,
}

/// An in-memory logging sink with a severity filter.
///
/// A fresh sink admits every severity; [`SerialLogger::init`] installs a
/// filter once, and fails if called a second time.
#[derive(Clone, Debug)]
pub struct SerialLogger {
    /// Whether [`SerialLogger::init`] has run.
    pub initialized: bool,
    /// Current admission threshold.
    pub level: LevelFilter,
    /// Records admitted so far, oldest first.
    pub records: Vec<LogRecord>,
}

impl SerialLogger {
    /// True when the sink lets records of severity `l` through.
    pub open spec fn admits(self, l: Level) -> bool {
        level_rank(l) <= filter_rank(self.level)
    }

    /// The record buffer after an event is offered at severity `l`:
    /// appended if admitted, unchanged otherwise.
    pub open spec fn recorded(self, l: Level, e: LogEvent) -> Seq<LogRecord> {
        if self.admits(l) {
            self.records@.push(LogRecord { level: l, event: e })
        } else {
            self.records@
        }
    }

    /// A fresh sink: no records, every severity admitted.
    pub fn new() -> (s: SerialLogger)
        ensures
            !s.initialized,
            s.level == LevelFilter::Trace,
            s.records@ == Seq::<LogRecord>::empty(),
    {
        SerialLogger { initialized: false, level: LevelFilter::Trace, records: Vec::new() }
    }

    /// Install the sink with an admission threshold. Succeeds exactly
    /// once; a second call fails and changes nothing.
    pub fn init(&mut self, level: LevelFilter) -> (r: Result<(), LoggerError>)
        ensures
            old(self).initialized ==> {
                &&& r == Result::<(), LoggerError>::Err(LoggerError::AlreadyInitialized)
                &&& *final(self) == *old(self)
            },
            !old(self).initialized ==> {
                &&& r == Result::<(), LoggerError>::Ok(())
                &&& final(self).initialized
                &&& final(self).level == level
                &&& final(self).records@ == old(self).records@
            },
    {
        if self.initialized {
            Err(LoggerError::AlreadyInitialized)
        } else {
            self.initialized = true;
            self.level = level;
            Ok(())
        }
    }

    /// True when a record of severity `level` would be admitted.
    pub fn enabled(&self, level: Level) -> (b: bool)
        ensures
            b == self.admits(level),
    {
        let lr: u8 = match level {
            Level::Error => 1,
            Level::Warn => 2,
            Level::Info => 3,
            Level::Debug => 4,
            Level::Trace => 5,
        };
        let fr: u8 = match self.level {
            LevelFilter::Off => 0,
            LevelFilter::Error => 1,
            LevelFilter::Warn => 2,
            LevelFilter::Info => 3,
            LevelFilter::Debug => 4,
            LevelFilter::Trace => 5,
        };
        lr <= fr
    }

    /// Offer an event at severity `level`; it is buffered only if the
    /// filter admits it. Never fails.
    pub fn log(&mut self, level: Level, event: LogEvent)
        ensures
            final(self).records@ == old(self).recorded(level, event),
            final(self).initialized == old(self).initialized,
            final(self).level == old(self).level,
    {
        if self.enabled(level) {
            self.records.push(LogRecord { level, event });
        }
    }

    /// The sink buffers in memory; there is nothing to flush.
    pub fn flush(&self) {
    }
}

} // verus!
