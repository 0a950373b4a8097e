//! The multi-rate control scheduler.
//!
//! An **outer tick** evaluates the altitude and position controllers once,
//! clamps their outputs to the vehicle's envelope, and freezes the result as
//! a [`ControlCommand`]. An **inner tick** evaluates the attitude controller
//! against the live state under that frozen command and immediately applies
//! one integration slice. [`scheduler_tick`] runs one outer tick followed by
//! `inner_iters` inner ticks: the attitude loop runs faster than the
//! position loop because rotational dynamics are faster than translational
//! ones, and the frozen command is a true zero-order hold across the batch.

use vstd::prelude::*;

use crate::controllers::alt_degenerate;
use crate::controllers::alt_thrust;
use crate::controllers::altitude_controller;
use crate::controllers::att_cmd;
use crate::controllers::attitude_controller;
use crate::controllers::alt_integral;
use crate::controllers::pos_cmd;
use crate::controllers::pos_integral_x;
use crate::controllers::pos_integral_y;
use crate::controllers::position_controller;
use crate::error::ControlError;
use crate::fx::clamp_spec;
use crate::fx::fx_clamp;
use crate::fx::tdiv;
use crate::params::Params;
use crate::params::ParamsM;
use crate::state::CommandM;
use crate::state::ControlCommand;
use crate::state::DesiredM;
use crate::state::DesiredState;
use crate::state::StateM;
use crate::trig::TWO_PI_FX;
use crate::vehicle::Quadrotor;
use crate::vehicle::QuadrotorM;
use crate::vehicle::step_degenerate;
use crate::vehicle::step_state;

verus! {

/// Largest roll or pitch setpoint the outer tick hands the attitude loop:
/// thirty degrees, in micro-radians.
pub const MAX_TILT_CMD: i64 = 523_599;

/// The command one outer tick freezes: the clamped thrust of the altitude
/// law and the clamped setpoint of the position law.
pub open spec fn outer_cmd(s: StateM, des: DesiredM, pm: ParamsM, quad: QuadrotorM) -> CommandM {
    let u1 = clamp_spec(alt_thrust(s, des, pm, quad.mass), quad.u_min, quad.u_max);
    let cmd = pos_cmd(s, des, pm);
    CommandM {
        u1: u1,
        phi_c: clamp_spec(cmd.0, -(MAX_TILT_CMD as int), MAX_TILT_CMD as int),
        theta_c: clamp_spec(cmd.1, -(MAX_TILT_CMD as int), MAX_TILT_CMD as int),
        psi_c: clamp_spec(cmd.2, -(TWO_PI_FX as int), TWO_PI_FX as int),
    }
}

/// The gain configuration after one outer tick: each of the three integral
/// accumulators has taken its step, everything else is unchanged.
pub open spec fn outer_params(s: StateM, des: DesiredM, pm: ParamsM) -> ParamsM {
    ParamsM {
        integral_error_z: alt_integral(s, des, pm),
        integral_error_x: pos_integral_x(s, des, pm),
        integral_error_y: pos_integral_y(s, des, pm),
        ..pm
    }
}

/// The time slice each inner tick integrates: the outer step divided by the
/// inner/outer iteration ratio.
pub open spec fn batch_dt(pm: ParamsM) -> int {
    tdiv(pm.dt, pm.inner_iters)
}

/// One inner tick as a state transformer: the attitude controller evaluated
/// against the live state under the held command, then one integration
/// slice.
pub open spec fn inner_step(
    s: StateM,
    c: CommandM,
    des: DesiredM,
    pm: ParamsM,
    quad: QuadrotorM,
    dt: int,
) -> StateM {
    step_state(
        s,
        c.u1,
        att_cmd(s, des, pm, c.phi_c, c.theta_c, c.psi_c),
        quad.mass,
        pm.gravity,
        quad.ixx,
        quad.iyy,
        quad.izz,
        dt,
    )
}

/// One inner tick that freezes at a degenerate state instead of integrating
/// through the Euler-rate singularity.
pub open spec fn inner_step_guarded(
    s: StateM,
    c: CommandM,
    des: DesiredM,
    pm: ParamsM,
    quad: QuadrotorM,
    dt: int,
) -> StateM {
    if step_degenerate(s) {
        s
    } else {
        inner_step(s, c, des, pm, quad, dt)
    }
}

/// `k` guarded inner ticks under one held command.
pub open spec fn iterate_inner(
    s: StateM,
    c: CommandM,
    des: DesiredM,
    pm: ParamsM,
    quad: QuadrotorM,
    dt: int,
    k: nat,
) -> StateM
    decreases k,
{
    if k == 0 {
        s
    } else {
        inner_step_guarded(
            iterate_inner(s, c, des, pm, quad, dt, (k - 1) as nat),
            c,
            des,
            pm,
            quad,
            dt,
        )
    }
}

/// Once a batch reaches a degenerate state it freezes there: every later
/// inner tick of the batch leaves it untouched.
proof fn lemma_iterate_frozen(
    s: StateM,
    c: CommandM,
    des: DesiredM,
    pm: ParamsM,
    quad: QuadrotorM,
    dt: int,
    k: nat,
    n: nat,
)
    requires
        k <= n,
        step_degenerate(iterate_inner(s, c, des, pm, quad, dt, k)),
    ensures
        iterate_inner(s, c, des, pm, quad, dt, n) == iterate_inner(s, c, des, pm, quad, dt, k),
    decreases n - k,
{
    if n > k {
        lemma_iterate_frozen(s, c, des, pm, quad, dt, k, (n - 1) as nat);
    }
}

/// Cascade ordering under the zero-order hold: each of the inner-tick
/// evaluations within one batch applies the attitude controller to the live
/// state with the *identical* held triple `(phi_c, theta_c, psi_c)` and the
/// identical held thrust `u1` of the batch's one frozen command.
pub proof fn lemma_zero_order_hold(
    s: StateM,
    c: CommandM,
    des: DesiredM,
    pm: ParamsM,
    quad: QuadrotorM,
    dt: int,
    k: nat,
)
    ensures
        ({
            let sk = iterate_inner(s, c, des, pm, quad, dt, k);
            !step_degenerate(sk) ==> iterate_inner(s, c, des, pm, quad, dt, k + 1) == step_state(
                sk,
                c.u1,
                att_cmd(sk, des, pm, c.phi_c, c.theta_c, c.psi_c),
                quad.mass,
                pm.gravity,
                quad.ixx,
                quad.iyy,
                quad.izz,
                dt,
            )
        }),
{
}

/// One outer tick: evaluate the altitude and position controllers, clamp,
/// and freeze the resulting command.
///
/// On success the command is exactly [`outer_cmd`] and the accumulators have
/// taken their [`outer_params`] step; under the tilt-compensated thrust law
/// with the roll in the singular band the tick reports
/// [`ControlError::TiltSingular`] and changes nothing.
pub fn outer_tick(
    quad: &Quadrotor,
    state_des: &DesiredState,
    params: &mut Params,
) -> (r: Result<ControlCommand, ControlError>)
    requires
        quad@.wf(),
        old(params)@.wf(),
    ensures
        alt_degenerate(quad@.state, old(params)@) ==> {
            &&& r === Err(ControlError::TiltSingular)
            &&& final(params)@ === old(params)@
        },
        !alt_degenerate(quad@.state, old(params)@) ==> {
            &&& (match r {
                Ok(c) => c@ === outer_cmd(quad@.state, state_des@, old(params)@, quad@),
                Err(_) => false,
            })
            &&& final(params)@ === outer_params(quad@.state, state_des@, old(params)@)
        },
{
    let u1 = match altitude_controller(&quad.state, state_des, params, quad.mass) {
        Ok(v) => v,
        Err(e) => {
            return Err(e);
        },
    };
    let u1c = fx_clamp(u1, quad.u_min, quad.u_max);
    let (phi_c, theta_c, psi_c) = position_controller(&quad.state, state_des, params);
    Ok(ControlCommand {
        u1: u1c,
        phi_c: fx_clamp(phi_c, -MAX_TILT_CMD, MAX_TILT_CMD),
        theta_c: fx_clamp(theta_c, -MAX_TILT_CMD, MAX_TILT_CMD),
        psi_c: fx_clamp(psi_c, -TWO_PI_FX, TWO_PI_FX),
    })
}

/// One inner tick: the attitude controller evaluated under the held command,
/// then one integration slice of `dt`.
///
/// On success the state has advanced by exactly [`inner_step`]; at a
/// degenerate pitch the tick reports [`ControlError::PitchSingular`] and
/// leaves the vehicle untouched.
pub fn inner_tick(
    quad: &mut Quadrotor,
    cmd: &ControlCommand,
    state_des: &DesiredState,
    params: &Params,
    dt: i64,
) -> (r: Result<(), ControlError>)
    requires
        old(quad)@.wf(),
    ensures
        step_degenerate(old(quad)@.state) ==> {
            &&& r === Err(ControlError::PitchSingular)
            &&& final(quad)@ === old(quad)@
        },
        !step_degenerate(old(quad)@.state) ==> {
            &&& r === Ok::<(), ControlError>(())
            &&& final(quad)@ === (QuadrotorM {
                state: inner_step(
                    old(quad)@.state,
                    cmd@,
                    state_des@,
                    params@,
                    old(quad)@,
                    dt as int,
                ),
                ..old(quad)@
            })
        },
{
    let u2 = attitude_controller(&quad.state, state_des, params, cmd.phi_c, cmd.theta_c, cmd.psi_c);
    quad.update_state(cmd.u1, u2, params, dt)
}

/// One full tick of the multi-rate cascade: one outer tick, then
/// `inner_iters` inner ticks under the frozen command (zero-order hold).
///
/// On success the state is exactly `inner_iters` applications of
/// [`inner_step`] under the one held command and no intermediate state was
/// degenerate. If some inner tick hits the Euler-rate singularity the state
/// stops at the last sound slice and [`ControlError::PitchSingular`] is
/// reported; if the outer tick itself is degenerate nothing changes at all.
#[verifier::rlimit(100)]
pub fn scheduler_tick(
    quad: &mut Quadrotor,
    state_des: &DesiredState,
    params: &mut Params,
) -> (r: Result<ControlCommand, ControlError>)
    requires
        old(quad)@.wf(),
        old(params)@.wf(),
    ensures
        alt_degenerate(old(quad)@.state, old(params)@) ==> {
            &&& r === Err(ControlError::TiltSingular)
            &&& final(quad)@ === old(quad)@
            &&& final(params)@ === old(params)@
        },
        !alt_degenerate(old(quad)@.state, old(params)@) ==> ({
            let s0 = old(quad)@.state;
            let c = outer_cmd(s0, state_des@, old(params)@, old(quad)@);
            let pmi = outer_params(s0, state_des@, old(params)@);
            let n = old(params)@.inner_iters as nat;
            let dt = batch_dt(old(params)@);
            &&& final(params)@ === pmi
            &&& final(quad)@ === (QuadrotorM {
                state: iterate_inner(s0, c, state_des@, pmi, old(quad)@, dt, n),
                ..old(quad)@
            })
            &&& (match r {
                Ok(cc) => {
                    &&& cc@ === c
                    &&& forall|k: nat|
                        k < n ==> !step_degenerate(
                            #[trigger] iterate_inner(s0, c, state_des@, pmi, old(quad)@, dt, k),
                        )
                },
                Err(e) => {
                    &&& e === ControlError::PitchSingular
                    &&& exists|k: nat|
                        k < n && step_degenerate(
                            #[trigger] iterate_inner(s0, c, state_des@, pmi, old(quad)@, dt, k),
                        )
                },
            })
        }),
{
    let c = match outer_tick(quad, state_des, params) {
        Ok(c) => c,
        Err(e) => {
            return Err(e);
        },
    };
    let n: u32 = params.inner_iters;
    let dt_inner: i64 = params.dt / (n as i64);
    let ghost s0 = old(quad)@.state;
    let ghost pmi = outer_params(s0, state_des@, old(params)@);
    let ghost qm0 = old(quad)@;
    let mut i: u32 = 0;
    while i < n
        invariant
            i <= n,
            s0 === old(quad)@.state,
            !alt_degenerate(s0, old(params)@),
            n == old(params)@.inner_iters,
            dt_inner as int == batch_dt(old(params)@),
            c@ === outer_cmd(s0, state_des@, old(params)@, qm0),
            pmi === outer_params(s0, state_des@, old(params)@),
            qm0 === old(quad)@,
            qm0.wf(),
            params@ === pmi,
            quad@ === (QuadrotorM {
                state: iterate_inner(s0, c@, state_des@, pmi, qm0, dt_inner as int, i as nat),
                ..qm0
            }),
            forall|k: nat|
                k < i ==> !step_degenerate(
                    #[trigger] iterate_inner(s0, c@, state_des@, pmi, qm0, dt_inner as int, k),
                ),
        decreases n - i,
    {
        match inner_tick(quad, &c, state_des, params, dt_inner) {
            Ok(_) => {
                i = i + 1;
            },
            Err(e) => {
                proof {
                    lemma_iterate_frozen(
                        s0,
                        c@,
                        state_des@,
                        pmi,
                        qm0,
                        dt_inner as int,
                        i as nat,
                        n as nat,
                    );
                }
                return Err(e);
            },
        }
    }
    Ok(c)
}

} // verus!
