//! The vehicle and its rigid-body integration step.
//!
//! [`Quadrotor`] owns the kinematic [`State`] exclusively;
//! [`Quadrotor::update_state`] advances it by one explicit-Euler time slice
//! under a thrust and moment command. The scheme is first order and
//! deliberately simple — a simulation-only approximation, not flight-grade.

use vstd::prelude::*;

use crate::error::ControlError;
use crate::fx::SCALE;
use crate::fx::fadd;
use crate::fx::fdiv;
use crate::fx::fmul;
use crate::fx::fsub;
use crate::fx::fx_add;
use crate::fx::fx_div;
use crate::fx::fx_mul;
use crate::fx::fx_sub;
use crate::params::Params;
use crate::state::State;
use crate::state::StateM;
use crate::trig::MIN_COS_DENOM;
use crate::trig::cos_spec;
use crate::trig::fx_cos;
use crate::trig::fx_sin;
use crate::trig::near_singular;
use crate::trig::sin_spec;

verus! {

/// Collective thrust that the reference vehicle can produce at most, in
/// micro-newtons: twice the hover thrust of the 0.18 kg airframe under
/// standard gravity.
pub const DEFAULT_U_MAX: i64 = 3_531_600;

/// The vehicle: its kinematic state, mass, thrust envelope and principal
/// moments of inertia.
#[derive(Clone, Copy, Debug, PartialEq, Eq, Structural)]
pub struct Quadrotor {
    pub state: State,
    pub mass: i64,
    pub u_min: i64,
    pub u_max: i64,
    pub ixx: i64,
    pub iyy: i64,
    pub izz: i64,
}

/// Mathematical view of [`Quadrotor`].
pub ghost struct QuadrotorM {
    pub state: StateM,
    pub mass: int,
    pub u_min: int,
    pub u_max: int,
    pub ixx: int,
    pub iyy: int,
    pub izz: int,
}

impl View for Quadrotor {
    type V = QuadrotorM;

    open spec fn view(&self) -> QuadrotorM {
        QuadrotorM {
            state: self.state@,
            mass: self.mass as int,
            u_min: self.u_min as int,
            u_max: self.u_max as int,
            ixx: self.ixx as int,
            iyy: self.iyy as int,
            izz: self.izz as int,
        }
    }
}

impl QuadrotorM {
    /// Validity of a vehicle: positive mass and inertia, an ordered thrust
    /// envelope.
    pub open spec fn wf(self) -> bool {
        &&& self.mass > 0
        &&& self.ixx > 0
        &&& self.iyy > 0
        &&& self.izz > 0
        &&& self.u_min <= self.u_max
    }
}

/// The integration step is refused when `cos(theta)` falls into the singular
/// band: the Euler-rate kinematics would divide by a vanishing denominator
/// (gimbal-lock-like behaviour near a quarter turn of pitch).
pub open spec fn step_degenerate(s: StateM) -> bool {
    near_singular(cos_spec(s.theta))
}

/// One explicit-Euler time slice of the rigid body under thrust `u1` and
/// moments `u2`, as a function of the previous state.
///
/// Translational step: `z_ddot = u1/m - g`, and the small-angle
/// linearization `x_ddot = g(theta cos psi + phi sin psi)`,
/// `y_ddot = g(theta sin psi - phi cos psi)`, valid near hover. Velocities
/// and positions integrate first order, each position using the velocity
/// just updated. Rotational step: Euler's rigid-body equations on the body
/// rates, from the previous rates. Euler-angle kinematics: the canonical
/// transform from the freshly integrated body rates, dividing by
/// `cos(theta)`. (A variant with the denominator `cos^2 theta + sin^2 theta`
/// — identically one — appears in some derivations of this cascade; that is
/// almost certainly a simplification slip, so the canonical transform is
/// used, and its singularity is reported, never silently propagated.)
#[verifier::opaque]
pub open spec fn step_state(
    s: StateM,
    u1: int,
    u2: (int, int, int),
    mass: int,
    g: int,
    ixx: int,
    iyy: int,
    izz: int,
    dt: int,
) -> StateM {
    let cps = cos_spec(s.psi);
    let sps = sin_spec(s.psi);
    let z_dd = fsub(fdiv(u1, mass), g);
    let x_dd = fmul(g, fadd(fmul(s.theta, cps), fmul(s.phi, sps)));
    let y_dd = fmul(g, fsub(fmul(s.theta, sps), fmul(s.phi, cps)));
    let x_dot = fadd(s.x_dot, fmul(x_dd, dt));
    let y_dot = fadd(s.y_dot, fmul(y_dd, dt));
    let z_dot = fadd(s.z_dot, fmul(z_dd, dt));
    let x = fadd(s.x, fmul(x_dot, dt));
    let y = fadd(s.y, fmul(y_dot, dt));
    let z = fadd(s.z, fmul(z_dot, dt));
    let p_dot = fdiv(fsub(u2.0, fmul(fmul(s.r, s.q), fsub(izz, iyy))), ixx);
    let q_dot = fdiv(fsub(u2.1, fmul(fmul(s.r, s.p), fsub(ixx, izz))), iyy);
    let r_dot = fdiv(fsub(u2.2, fmul(fmul(s.q, s.p), fsub(iyy, ixx))), izz);
    let p = fadd(s.p, fmul(p_dot, dt));
    let q = fadd(s.q, fmul(q_dot, dt));
    let r = fadd(s.r, fmul(r_dot, dt));
    let sph = sin_spec(s.phi);
    let cph = cos_spec(s.phi);
    let sth = sin_spec(s.theta);
    let cth = cos_spec(s.theta);
    let w = fadd(fmul(q, sph), fmul(r, cph));
    let phi_dot = fadd(p, fdiv(fmul(w, sth), cth));
    let theta_dot = fsub(fmul(q, cph), fmul(r, sph));
    let psi_dot = fdiv(w, cth);
    StateM {
        x: x,
        y: y,
        z: z,
        x_dot: x_dot,
        y_dot: y_dot,
        z_dot: z_dot,
        x_ddot: x_dd,
        y_ddot: y_dd,
        z_ddot: z_dd,
        phi: fadd(s.phi, fmul(phi_dot, dt)),
        theta: fadd(s.theta, fmul(theta_dot, dt)),
        psi: fadd(s.psi, fmul(psi_dot, dt)),
        phi_dot: phi_dot,
        theta_dot: theta_dot,
        psi_dot: psi_dot,
        p: p,
        q: q,
        r: r,
        p_dot: p_dot,
        q_dot: q_dot,
        r_dot: r_dot,
    }
}

impl Quadrotor {
    /// A vehicle of the given mass at the given initial state, with the
    /// reference thrust envelope and unit moments of inertia. A mass that is
    /// not strictly positive is rejected at construction time.
    pub fn new(mass: i64, initial_state: State) -> (r: Result<Quadrotor, ControlError>)
        ensures
            mass <= 0 ==> r === Err(ControlError::NonPositiveMass),
            mass > 0 ==> {
                &&& (match r {
                    Ok(quad) => quad@ === (QuadrotorM {
                        state: initial_state@,
                        mass: mass as int,
                        u_min: 0,
                        u_max: DEFAULT_U_MAX as int,
                        ixx: SCALE as int,
                        iyy: SCALE as int,
                        izz: SCALE as int,
                    }),
                    Err(_) => false,
                })
                &&& (match r {
                    Ok(quad) => quad@.wf(),
                    Err(_) => false,
                })
            },
    {
        if mass <= 0 {
            return Err(ControlError::NonPositiveMass);
        }
        Ok(Quadrotor {
            state: initial_state,
            mass: mass,
            u_min: 0,
            u_max: DEFAULT_U_MAX,
            ixx: SCALE,
            iyy: SCALE,
            izz: SCALE,
        })
    }

    /// The vehicle's position `(x, y, z)`, for telemetry.
    pub fn position(&self) -> (r: (i64, i64, i64))
        ensures
            r === (self.state.x, self.state.y, self.state.z),
    {
        (self.state.x, self.state.y, self.state.z)
    }

    /// The vehicle's Euler orientation `(phi, theta, psi)`, for telemetry.
    pub fn orientation(&self) -> (r: (i64, i64, i64))
        ensures
            r === (self.state.phi, self.state.theta, self.state.psi),
    {
        (self.state.phi, self.state.theta, self.state.psi)
    }

    /// Advance the state by one time slice `dt` under thrust `u1` and
    /// moments `u2`, reading the gravity constant from `params`.
    ///
    /// On success the new state is exactly [`step_state`] of the old one and
    /// nothing else changes. When the previous pitch sits in the singular
    /// band of the Euler-rate transform, the call reports
    /// [`ControlError::PitchSingular`] and leaves the vehicle untouched, so a
    /// degenerate slice can never corrupt the state.
    pub fn update_state(
        &mut self,
        u1: i64,
        u2: (i64, i64, i64),
        params: &Params,
        dt: i64,
    ) -> (r: Result<(), ControlError>)
        requires
            old(self)@.wf(),
        ensures
            step_degenerate(old(self)@.state) ==> {
                &&& r === Err(ControlError::PitchSingular)
                &&& final(self)@ === old(self)@
            },
            !step_degenerate(old(self)@.state) ==> {
                &&& r === Ok(())
                &&& final(self)@ === (QuadrotorM {
                    state: step_state(
                        old(self)@.state,
                        u1 as int,
                        (u2.0 as int, u2.1 as int, u2.2 as int),
                        old(self)@.mass,
                        params@.gravity,
                        old(self)@.ixx,
                        old(self)@.iyy,
                        old(self)@.izz,
                        dt as int,
                    ),
                    ..old(self)@
                })
            },
    {
        proof {
            reveal(step_state);
        }
        let cth = fx_cos(self.state.theta);
        if -MIN_COS_DENOM < cth && cth < MIN_COS_DENOM {
            return Err(ControlError::PitchSingular);
        }
        let s = self.state;
        let cps = fx_cos(s.psi);
        let sps = fx_sin(s.psi);
        let z_dd = fx_sub(fx_div(u1, self.mass), params.gravity);
        let x_dd = fx_mul(params.gravity, fx_add(fx_mul(s.theta, cps), fx_mul(s.phi, sps)));
        let y_dd = fx_mul(params.gravity, fx_sub(fx_mul(s.theta, sps), fx_mul(s.phi, cps)));
        let x_dot = fx_add(s.x_dot, fx_mul(x_dd, dt));
        let y_dot = fx_add(s.y_dot, fx_mul(y_dd, dt));
        let z_dot = fx_add(s.z_dot, fx_mul(z_dd, dt));
        let x = fx_add(s.x, fx_mul(x_dot, dt));
        let y = fx_add(s.y, fx_mul(y_dot, dt));
        let z = fx_add(s.z, fx_mul(z_dot, dt));
        let p_dot = fx_div(fx_sub(u2.0, fx_mul(fx_mul(s.r, s.q), fx_sub(self.izz, self.iyy))), self.ixx);
        let q_dot = fx_div(fx_sub(u2.1, fx_mul(fx_mul(s.r, s.p), fx_sub(self.ixx, self.izz))), self.iyy);
        let r_dot = fx_div(fx_sub(u2.2, fx_mul(fx_mul(s.q, s.p), fx_sub(self.iyy, self.ixx))), self.izz);
        let p = fx_add(s.p, fx_mul(p_dot, dt));
        let q = fx_add(s.q, fx_mul(q_dot, dt));
        let r = fx_add(s.r, fx_mul(r_dot, dt));
        let sph = fx_sin(s.phi);
        let cph = fx_cos(s.phi);
        let sth = fx_sin(s.theta);
        let w = fx_add(fx_mul(q, sph), fx_mul(r, cph));
        let phi_dot = fx_add(p, fx_div(fx_mul(w, sth), cth));
        let theta_dot = fx_sub(fx_mul(q, cph), fx_mul(r, sph));
        let psi_dot = fx_div(w, cth);
        self.state = State {
            x: x,
            y: y,
            z: z,
            x_dot: x_dot,
            y_dot: y_dot,
            z_dot: z_dot,
            x_ddot: x_dd,
            y_ddot: y_dd,
            z_ddot: z_dd,
            phi: fx_add(s.phi, fx_mul(phi_dot, dt)),
            theta: fx_add(s.theta, fx_mul(theta_dot, dt)),
            psi: fx_add(s.psi, fx_mul(psi_dot, dt)),
            phi_dot: phi_dot,
            theta_dot: theta_dot,
            psi_dot: psi_dot,
            p: p,
            q: q,
            r: r,
            p_dot: p_dot,
            q_dot: q_dot,
            r_dot: r_dot,
        };
        Ok(())
    }
}

} // verus!
