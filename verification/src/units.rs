//! Fixed-point units for rotational positions and drive voltages.
//!
//! Position sensors report angles in degrees and actuators accept drive
//! commands in volts. To keep every computation exact, the library stores
//! an angle as a whole number of millidegrees (thousandths of a degree)
//! and a voltage as a whole number of millivolts.

use vstd::prelude::*;

verus! {

/// Largest angle magnitude the library accepts, in millidegrees
/// (one million degrees; far beyond any mechanism's travel, but small
/// enough that feedback arithmetic on angles cannot overflow an `i64`).
pub const ANGLE_LIMIT_MILLIDEGREES: i64 = 1_000_000_000;

/// A rotational position, stored in millidegrees.
#[derive(Clone, Copy, Debug, PartialEq, Eq, Structural)]
pub struct Angle {
    pub millidegrees: i64,
}

impl Angle {
    /// True when the stored magnitude is within the supported range.
    /// Every constructor of the library establishes it.
    pub open spec fn in_range(self) -> bool {
        -ANGLE_LIMIT_MILLIDEGREES <= self.millidegrees <= ANGLE_LIMIT_MILLIDEGREES
    }

    pub fn from_millidegrees(millidegrees: i64) -> (a: Angle)
        requires
            -ANGLE_LIMIT_MILLIDEGREES <= millidegrees <= ANGLE_LIMIT_MILLIDEGREES,
        ensures
            a.millidegrees == millidegrees,
            a.in_range(),
    {
        Angle { millidegrees }
    }

    pub fn from_degrees(degrees: i64) -> (a: Angle)
        requires
            -1_000_000 <= degrees <= 1_000_000,
        ensures
            a.millidegrees == 1000 * degrees,
            a.in_range(),
    {
        Angle { millidegrees: degrees * 1000 }
    }

    pub fn as_millidegrees(self) -> (m: i64)
        ensures
            m == self.millidegrees,
    {
        self.millidegrees
    }
}

/// A drive voltage, stored in millivolts.
#[derive(Clone, Copy, Debug, PartialEq, Eq, Structural)]
pub struct Voltage {
    pub millivolts: i64,
}

impl Voltage {
    pub fn from_millivolts(millivolts: i64) -> (v: Voltage)
        ensures
            v.millivolts == millivolts,
    {
        Voltage { millivolts }
    }

    pub fn as_millivolts(self) -> (m: i64)
        ensures
            m == self.millivolts,
    {
        self.millivolts
    }
}

} // verus!
