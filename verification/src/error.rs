//! The degenerate / out-of-envelope conditions the control laws report.

use vstd::prelude::*;

verus! {

/// Why a controller or the integrator refused to produce a value.
///
/// The numeric laws are total except for two singularities and one
/// construction-time check; each gets a defined signal instead of letting a
/// diverging value corrupt the vehicle state.
#[derive(Clone, Copy, Debug, PartialEq, Eq, Structural)]
pub enum ControlError {
    /// A vehicle was configured with a mass that is not strictly positive.
    NonPositiveMass,
    /// The tilt-compensated thrust law would divide by a vanishing `cos(phi)`:
    /// the vehicle is rolled too close to (or past) a quarter turn.
    TiltSingular,
    /// The Euler-rate kinematics would divide by a vanishing `cos(theta)`:
    /// the vehicle is pitched too close to (or past) a quarter turn.
    PitchSingular,
}

impl ControlError {
    /// A short description of the condition, for callers that log it.
    pub fn describe(&self) -> (r: &'static str)
    {
        match self {
            ControlError::NonPositiveMass => "mass must be strictly positive",
            ControlError::TiltSingular => "roll angle too close to a quarter turn for tilt-compensated thrust",
            ControlError::PitchSingular => "pitch angle too close to a quarter turn for the Euler-rate kinematics",
        }
    }
}

} // verus!
