//! Named preset positions for a wall-stake arm mechanism driven by a
//! setpoint actuator. Each preset maps to the absolute rotational position
//! the arm's sensor reads when the arm is in that pose.

use vstd::prelude::*;

use crate::units::Angle;

verus! {

/// The poses the arm is driven between.
#[derive(Clone, Copy, Debug, PartialEq, Eq, Structural)]
pub enum LadyBrownPosition {
    /// Resting pose.
    Lowered,
    /// Scoring pose.
    Raised,
}

impl LadyBrownPosition {
    /// The absolute position a preset drives the arm to.
    pub fn target_position(&self) -> (a: Angle)
        ensures
            *self is Raised ==> a.millidegrees == 232_000,
            *self is Lowered ==> a.millidegrees == 203_000,
            a.in_range(),
    {
        match self {
            LadyBrownPosition::Raised => Angle::from_degrees(232),
            LadyBrownPosition::Lowered => Angle::from_degrees(203),
        }
    }
}

} // verus!
