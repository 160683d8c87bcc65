//! Tests for the logging sink: initialisation, filtering, recording.

use setpoint::errors::{LoggerError, SensorError};
use setpoint::logger::{Level, LevelFilter, LogEvent, SerialLogger};

#[test]
fn fresh_sink_admits_everything() {
    let mut s = SerialLogger::new();
    assert!(s.enabled(Level::Trace));
    s.log(Level::Debug, LogEvent::SensorFailure(SensorError::BadReading));
    assert_eq!(s.records.len(), 1);
}

#[test]
fn init_succeeds_exactly_once() {
    let mut s = SerialLogger::new();
    assert_eq!(s.init(LevelFilter::Info), Ok(()));
    assert_eq!(
        s.init(LevelFilter::Trace),
        Err(LoggerError::AlreadyInitialized)
    );
    // The failed second call changed nothing.
    assert_eq!(s.level, LevelFilter::Info);
}

#[test]
fn filter_drops_less_severe_records() {
    let mut s = SerialLogger::new();
    s.init(LevelFilter::Error).unwrap();
    assert!(s.enabled(Level::Error));
    assert!(!s.enabled(Level::Warn));
    s.log(Level::Warn, LogEvent::SensorFailure(SensorError::Disconnected));
    assert_eq!(s.records.len(), 0);
    s.log(Level::Error, LogEvent::SensorFailure(SensorError::Disconnected));
    assert_eq!(s.records.len(), 1);
}

#[test]
fn off_filter_admits_nothing() {
    let mut s = SerialLogger::new();
    s.init(LevelFilter::Off).unwrap();
    assert!(!s.enabled(Level::Error));
    s.log(Level::Error, LogEvent::SensorFailure(SensorError::Disconnected));
    assert!(s.records.is_empty());
}

#[test]
fn flush_is_a_no_op() {
    let mut s = SerialLogger::new();
    s.log(Level::Info, LogEvent::SensorFailure(SensorError::BadReading));
    s.flush();
    assert_eq!(s.records.len(), 1);
}

#[test]
fn records_keep_arrival_order() {
    let mut s = SerialLogger::new();
    s.log(Level::Warn, LogEvent::SensorFailure(SensorError::Disconnected));
    s.log(Level::Error, LogEvent::SensorFailure(SensorError::BadReading));
    assert_eq!(s.records[0].level, Level::Warn);
    assert_eq!(s.records[1].level, Level::Error);
}
