//! Gain configuration: per-axis PID gains, the persistent integral-error
//! accumulators, the gravity constant, the outer step size, and the
//! inner/outer iteration ratio.

use vstd::prelude::*;

verus! {

/// Which collective-thrust law the altitude controller applies.
///
/// The two are mutually exclusive sign/projection conventions; both are kept
/// self-consistent with the integrator's convention that positive commanded
/// acceleration raises the vehicle (`z_ddot == u1 / m - g`).
#[derive(Clone, Copy, Debug, PartialEq, Eq, Structural)]
pub enum ThrustModel {
    /// `u1 = m * (g + acc_cmd)`: the simplified, untilted projection.
    Untilted,
    /// `u1 = m * (g + acc_cmd) / cos(phi)`: compensates the thrust for the
    /// current roll, and is singular as `cos(phi)` vanishes.
    TiltCompensated,
}

/// Bound on the magnitude of each integral-error accumulator (anti-windup):
/// sustained error stops accumulating here instead of growing without limit.
pub const INTEGRAL_LIMIT: i64 = 1_000_000_000_000;

/// Gains and configuration of the whole cascade, plus the three mutable
/// integral-error accumulators owned by the outer-loop controllers.
///
/// `ki_angle` is carried for completeness of the per-axis gain triples, but
/// no variant of the attitude law applies an integral term, so nothing reads
/// it.
#[derive(Clone, Copy, Debug, PartialEq, Eq, Structural)]
pub struct Params {
    pub integral_error_z: i64,
    pub integral_error_x: i64,
    pub integral_error_y: i64,
    pub kv_z: i64,
    pub kp_z: i64,
    pub ki_z: i64,
    pub kv_xy: i64,
    pub kp_xy: i64,
    pub ki_xy: i64,
    pub kv_angle: i64,
    pub kp_angle: i64,
    pub ki_angle: i64,
    pub dt: i64,
    pub gravity: i64,
    pub thrust_model: ThrustModel,
    pub inner_iters: u32,
}

/// Mathematical view of [`Params`].
pub ghost struct ParamsM {
    pub integral_error_z: int,
    pub integral_error_x: int,
    pub integral_error_y: int,
    pub kv_z: int,
    pub kp_z: int,
    pub ki_z: int,
    pub kv_xy: int,
    pub kp_xy: int,
    pub ki_xy: int,
    pub kv_angle: int,
    pub kp_angle: int,
    pub ki_angle: int,
    pub dt: int,
    pub gravity: int,
    pub thrust_model: ThrustModel,
    pub inner_iters: int,
}

impl View for Params {
    type V = ParamsM;

    open spec fn view(&self) -> ParamsM {
        ParamsM {
            integral_error_z: self.integral_error_z as int,
            integral_error_x: self.integral_error_x as int,
            integral_error_y: self.integral_error_y as int,
            kv_z: self.kv_z as int,
            kp_z: self.kp_z as int,
            ki_z: self.ki_z as int,
            kv_xy: self.kv_xy as int,
            kp_xy: self.kp_xy as int,
            ki_xy: self.ki_xy as int,
            kv_angle: self.kv_angle as int,
            kp_angle: self.kp_angle as int,
            ki_angle: self.ki_angle as int,
            dt: self.dt as int,
            gravity: self.gravity as int,
            thrust_model: self.thrust_model,
            inner_iters: self.inner_iters as int,
        }
    }
}

impl ParamsM {
    /// Validity of a configuration: gravity and the step size are strictly
    /// positive and at least one inner tick runs per outer tick.
    pub open spec fn wf(self) -> bool {
        &&& self.gravity > 0
        &&& self.dt > 0
        &&& self.inner_iters >= 1
    }
}

impl Params {
    /// The reference configuration: moderate PD gains on every axis, no
    /// integral action, a tenth-of-a-second outer step split into ten inner
    /// ticks, standard gravity, and the untilted thrust law.
    pub fn new() -> (p: Params)
        ensures
            p@ == (ParamsM {
                integral_error_z: 0,
                integral_error_x: 0,
                integral_error_y: 0,
                kv_z: 60_000_000,
                kp_z: 40_000_000,
                ki_z: 0,
                kv_xy: 90_000_000,
                kp_xy: 22_000_000,
                ki_xy: 0,
                kv_angle: 15_000_000,
                kp_angle: 15_000_000,
                ki_angle: 0,
                dt: 100_000,
                gravity: 9_810_000,
                thrust_model: ThrustModel::Untilted,
                inner_iters: 10,
            }),
            p@.wf(),
    {
        Params {
            integral_error_z: 0,
            integral_error_x: 0,
            integral_error_y: 0,
            kv_z: 60_000_000,
            kp_z: 40_000_000,
            ki_z: 0,
            kv_xy: 90_000_000,
            kp_xy: 22_000_000,
            ki_xy: 0,
            kv_angle: 15_000_000,
            kp_angle: 15_000_000,
            ki_angle: 0,
            dt: 100_000,
            gravity: 9_810_000,
            thrust_model: ThrustModel::Untilted,
            inner_iters: 10,
        }
    }
}

} // verus!
