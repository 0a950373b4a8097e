//! The three gain-driven controllers of the cascade.
//!
//! * [`altitude_controller`]: vertical tracking error to collective thrust.
//! * [`position_controller`]: horizontal tracking error to a desired
//!   roll/pitch/yaw setpoint.
//! * [`attitude_controller`]: orientation and body-rate error to body-axis
//!   moment commands.
//!
//! Each executable body mirrors its spec function over the fixed-point
//! operations exactly, so the contracts pin every output to the control law.

use vstd::prelude::*;

use crate::error::ControlError;
use crate::fx::clamp_spec;
use crate::fx::fadd;
use crate::fx::fdiv;
use crate::fx::fmul;
use crate::fx::fsub;
use crate::fx::fx_add;
use crate::fx::fx_clamp;
use crate::fx::fx_div;
use crate::fx::fx_mul;
use crate::fx::fx_sub;
use crate::params::INTEGRAL_LIMIT;
use crate::params::Params;
use crate::params::ParamsM;
use crate::params::ThrustModel;
use crate::state::DesiredM;
use crate::state::DesiredState;
use crate::state::State;
use crate::state::StateM;
use crate::trig::MIN_COS_DENOM;
use crate::trig::cos_spec;
use crate::trig::fx_cos;
use crate::trig::fx_sin;
use crate::trig::near_singular;
use crate::trig::sin_spec;

verus! {

/// One anti-windup step of an integral-error accumulator: add `err * dt`,
/// then clamp the accumulator to `INTEGRAL_LIMIT` in magnitude.
pub open spec fn integral_next(acc: int, err: int, dt: int) -> int {
    clamp_spec(fadd(acc, fmul(err, dt)), -(INTEGRAL_LIMIT as int), INTEGRAL_LIMIT as int)
}

/// Commanded acceleration of one axis: feed-forward plus derivative,
/// proportional and integral terms, summed left to right.
pub open spec fn pid_acc(ff: int, kv: int, e_dot: int, kp: int, e: int, ki: int, acc: int) -> int {
    fadd(fadd(fadd(ff, fmul(kv, e_dot)), fmul(kp, e)), fmul(ki, acc))
}

/// Vertical position error.
pub open spec fn alt_err(s: StateM, des: DesiredM) -> int {
    fsub(des.z, s.z)
}

/// The altitude accumulator after one evaluation.
pub open spec fn alt_integral(s: StateM, des: DesiredM, pm: ParamsM) -> int {
    integral_next(pm.integral_error_z, alt_err(s, des), pm.dt)
}

/// The commanded vertical acceleration.
pub open spec fn alt_acc_cmd(s: StateM, des: DesiredM, pm: ParamsM) -> int {
    pid_acc(
        des.z_ddot,
        pm.kv_z,
        fsub(des.z_dot, s.z_dot),
        pm.kp_z,
        alt_err(s, des),
        pm.ki_z,
        alt_integral(s, des, pm),
    )
}

/// The altitude controller refuses to divide by a vanishing `cos(phi)`:
/// only the tilt-compensated law has the singularity.
pub open spec fn alt_degenerate(s: StateM, pm: ParamsM) -> bool {
    pm.thrust_model is TiltCompensated && near_singular(cos_spec(s.phi))
}

/// The collective thrust command, before the caller's clamp step.
pub open spec fn alt_thrust(s: StateM, des: DesiredM, pm: ParamsM, mass: int) -> int {
    let base = fmul(mass, fadd(pm.gravity, alt_acc_cmd(s, des, pm)));
    match pm.thrust_model {
        ThrustModel::Untilted => base,
        ThrustModel::TiltCompensated => fdiv(base, cos_spec(s.phi)),
    }
}

/// Collective thrust from vertical tracking error.
///
/// On success the returned thrust is exactly [`alt_thrust`] and the altitude
/// integral accumulator has taken one [`integral_next`] step; the caller is
/// responsible for clamping the thrust to the vehicle's envelope. Under the
/// tilt-compensated law with the vehicle rolled into the singular band, the
/// call reports [`ControlError::TiltSingular`] and changes nothing.
pub fn altitude_controller(
    state: &State,
    state_des: &DesiredState,
    params: &mut Params,
    mass: i64,
) -> (r: Result<i64, ControlError>)
    ensures
        alt_degenerate(state@, old(params)@) ==> {
            &&& r === Err(ControlError::TiltSingular)
            &&& final(params)@ === old(params)@
        },
        !alt_degenerate(state@, old(params)@) ==> {
            &&& (match r {
                Ok(u1) => u1 as int == alt_thrust(state@, state_des@, old(params)@, mass as int),
                Err(_) => false,
            })
            &&& final(params)@ === (ParamsM {
                integral_error_z: alt_integral(state@, state_des@, old(params)@),
                ..old(params)@
            })
        },
{
    if params.thrust_model == ThrustModel::TiltCompensated {
        let c = fx_cos(state.phi);
        if -MIN_COS_DENOM < c && c < MIN_COS_DENOM {
            return Err(ControlError::TiltSingular);
        }
    }
    let pe = fx_sub(state_des.z, state.z);
    let ve = fx_sub(state_des.z_dot, state.z_dot);
    let i2 = fx_clamp(
        fx_add(params.integral_error_z, fx_mul(pe, params.dt)),
        -INTEGRAL_LIMIT,
        INTEGRAL_LIMIT,
    );
    params.integral_error_z = i2;
    let acc = fx_add(
        fx_add(fx_add(state_des.z_ddot, fx_mul(params.kv_z, ve)), fx_mul(params.kp_z, pe)),
        fx_mul(params.ki_z, i2),
    );
    let base = fx_mul(mass, fx_add(params.gravity, acc));
    if params.thrust_model == ThrustModel::TiltCompensated {
        let c = fx_cos(state.phi);
        Ok(fx_div(base, c))
    } else {
        Ok(base)
    }
}

/// The lateral accumulators after one evaluation.
pub open spec fn pos_integral_x(s: StateM, des: DesiredM, pm: ParamsM) -> int {
    integral_next(pm.integral_error_x, fsub(des.x, s.x), pm.dt)
}

/// The lateral accumulators after one evaluation.
pub open spec fn pos_integral_y(s: StateM, des: DesiredM, pm: ParamsM) -> int {
    integral_next(pm.integral_error_y, fsub(des.y, s.y), pm.dt)
}

/// The commanded acceleration along the world x axis.
pub open spec fn pos_acc_x(s: StateM, des: DesiredM, pm: ParamsM) -> int {
    pid_acc(
        des.x_ddot,
        pm.kv_xy,
        fsub(des.x_dot, s.x_dot),
        pm.kp_xy,
        fsub(des.x, s.x),
        pm.ki_xy,
        pos_integral_x(s, des, pm),
    )
}

/// The commanded acceleration along the world y axis.
pub open spec fn pos_acc_y(s: StateM, des: DesiredM, pm: ParamsM) -> int {
    pid_acc(
        des.y_ddot,
        pm.kv_xy,
        fsub(des.y_dot, s.y_dot),
        pm.kp_xy,
        fsub(des.y, s.y),
        pm.ki_xy,
        pos_integral_y(s, des, pm),
    )
}

/// The attitude setpoint `(phi_c, theta_c, psi_c)` commanded by the position
/// controller: the two horizontal acceleration commands rotated through the
/// *desired* yaw into body-relative roll and pitch, scaled by gravity, with
/// the desired yaw passed through.
pub open spec fn pos_cmd(s: StateM, des: DesiredM, pm: ParamsM) -> (int, int, int) {
    let xdd = pos_acc_x(s, des, pm);
    let ydd = pos_acc_y(s, des, pm);
    let sp = sin_spec(des.psi);
    let cp = cos_spec(des.psi);
    (
        fdiv(fsub(fmul(xdd, sp), fmul(ydd, cp)), pm.gravity),
        fdiv(fadd(fmul(xdd, cp), fmul(ydd, sp)), pm.gravity),
        des.psi,
    )
}

/// Desired roll, pitch and yaw from horizontal tracking error.
///
/// Returns exactly [`pos_cmd`] and takes one [`integral_next`] step on each
/// lateral accumulator; the caller is responsible for clamping the setpoint.
pub fn position_controller(
    state: &State,
    state_des: &DesiredState,
    params: &mut Params,
) -> (r: (i64, i64, i64))
    requires
        old(params)@.gravity != 0,
    ensures
        (r.0 as int, r.1 as int, r.2 as int) === pos_cmd(state@, state_des@, old(params)@),
        final(params)@ === (ParamsM {
            integral_error_x: pos_integral_x(state@, state_des@, old(params)@),
            integral_error_y: pos_integral_y(state@, state_des@, old(params)@),
            ..old(params)@
        }),
{
    let xe = fx_sub(state_des.x, state.x);
    let xde = fx_sub(state_des.x_dot, state.x_dot);
    let ix = fx_clamp(
        fx_add(params.integral_error_x, fx_mul(xe, params.dt)),
        -INTEGRAL_LIMIT,
        INTEGRAL_LIMIT,
    );
    params.integral_error_x = ix;
    let xdd = fx_add(
        fx_add(fx_add(state_des.x_ddot, fx_mul(params.kv_xy, xde)), fx_mul(params.kp_xy, xe)),
        fx_mul(params.ki_xy, ix),
    );

    let ye = fx_sub(state_des.y, state.y);
    let yde = fx_sub(state_des.y_dot, state.y_dot);
    let iy = fx_clamp(
        fx_add(params.integral_error_y, fx_mul(ye, params.dt)),
        -INTEGRAL_LIMIT,
        INTEGRAL_LIMIT,
    );
    params.integral_error_y = iy;
    let ydd = fx_add(
        fx_add(fx_add(state_des.y_ddot, fx_mul(params.kv_xy, yde)), fx_mul(params.kp_xy, ye)),
        fx_mul(params.ki_xy, iy),
    );

    let sp = fx_sin(state_des.psi);
    let cp = fx_cos(state_des.psi);
    let phi_c = fx_div(fx_sub(fx_mul(xdd, sp), fx_mul(ydd, cp)), params.gravity);
    let theta_c = fx_div(fx_add(fx_mul(xdd, cp), fx_mul(ydd, sp)), params.gravity);
    (phi_c, theta_c, state_des.psi)
}

/// The body-axis moment commands `(u2_roll, u2_pitch, u2_yaw)`: an
/// independent PD law per axis, with zero commanded roll and pitch rates and
/// the desired yaw rate as the commanded yaw rate. No integral term acts on
/// attitude.
#[verifier::opaque]
pub open spec fn att_cmd(
    s: StateM,
    des: DesiredM,
    pm: ParamsM,
    phi_c: int,
    theta_c: int,
    psi_c: int,
) -> (int, int, int) {
    (
        fadd(fmul(pm.kp_angle, fsub(phi_c, s.phi)), fmul(pm.kv_angle, fsub(0, s.p))),
        fadd(fmul(pm.kp_angle, fsub(theta_c, s.theta)), fmul(pm.kv_angle, fsub(0, s.q))),
        fadd(fmul(pm.kp_angle, fsub(psi_c, s.psi)), fmul(pm.kv_angle, fsub(des.psi_dot, s.r))),
    )
}

/// Body-axis moment commands from orientation and body-rate error.
///
/// Pure: returns exactly [`att_cmd`] and mutates nothing.
pub fn attitude_controller(
    state: &State,
    state_des: &DesiredState,
    params: &Params,
    phi_c: i64,
    theta_c: i64,
    psi_c: i64,
) -> (r: (i64, i64, i64))
    ensures
        (r.0 as int, r.1 as int, r.2 as int) === att_cmd(
            state@,
            state_des@,
            params@,
            phi_c as int,
            theta_c as int,
            psi_c as int,
        ),
{
    proof {
        reveal(att_cmd);
    }
    let u2_roll = fx_add(
        fx_mul(params.kp_angle, fx_sub(phi_c, state.phi)),
        fx_mul(params.kv_angle, fx_sub(0, state.p)),
    );
    let u2_pitch = fx_add(
        fx_mul(params.kp_angle, fx_sub(theta_c, state.theta)),
        fx_mul(params.kv_angle, fx_sub(0, state.q)),
    );
    let u2_yaw = fx_add(
        fx_mul(params.kp_angle, fx_sub(psi_c, state.psi)),
        fx_mul(params.kv_angle, fx_sub(state_des.psi_dot, state.r)),
    );
    (u2_roll, u2_pitch, u2_yaw)
}

} // verus!
