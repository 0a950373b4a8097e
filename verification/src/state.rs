//! The vehicle's kinematic state, the trajectory target, and the command a
//! single outer tick freezes for its batch of inner ticks.
//!
//! Every field is a fixed-point scalar in micro-units (see [`crate::fx`]).
//! Each executable struct has a ghost view over mathematical integers, and
//! all contracts speak of those views.

use vstd::prelude::*;

verus! {

/// Kinematic state of the vehicle: position, linear velocity, Euler
/// orientation, Euler-angle rates, body-frame angular rates, and the
/// accelerations derived by the most recent integration step.
#[derive(Clone, Copy, Debug, PartialEq, Eq, Structural)]
pub struct State {
    pub x: i64,
    pub y: i64,
    pub z: i64,
    pub x_dot: i64,
    pub y_dot: i64,
    pub z_dot: i64,
    pub x_ddot: i64,
    pub y_ddot: i64,
    pub z_ddot: i64,
    pub phi: i64,
    pub theta: i64,
    pub psi: i64,
    pub phi_dot: i64,
    pub theta_dot: i64,
    pub psi_dot: i64,
    pub p: i64,
    pub q: i64,
    pub r: i64,
    pub p_dot: i64,
    pub q_dot: i64,
    pub r_dot: i64,
}

/// Mathematical view of [`State`].
pub ghost struct StateM {
    pub x: int,
    pub y: int,
    pub z: int,
    pub x_dot: int,
    pub y_dot: int,
    pub z_dot: int,
    pub x_ddot: int,
    pub y_ddot: int,
    pub z_ddot: int,
    pub phi: int,
    pub theta: int,
    pub psi: int,
    pub phi_dot: int,
    pub theta_dot: int,
    pub psi_dot: int,
    pub p: int,
    pub q: int,
    pub r: int,
    pub p_dot: int,
    pub q_dot: int,
    pub r_dot: int,
}

impl View for State {
    type V = StateM;

    open spec fn view(&self) -> StateM {
        StateM {
            x: self.x as int,
            y: self.y as int,
            z: self.z as int,
            x_dot: self.x_dot as int,
            y_dot: self.y_dot as int,
            z_dot: self.z_dot as int,
            x_ddot: self.x_ddot as int,
            y_ddot: self.y_ddot as int,
            z_ddot: self.z_ddot as int,
            phi: self.phi as int,
            theta: self.theta as int,
            psi: self.psi as int,
            phi_dot: self.phi_dot as int,
            theta_dot: self.theta_dot as int,
            psi_dot: self.psi_dot as int,
            p: self.p as int,
            q: self.q as int,
            r: self.r as int,
            p_dot: self.p_dot as int,
            q_dot: self.q_dot as int,
            r_dot: self.r_dot as int,
        }
    }
}

impl State {
    /// The state with every kinematic variable at zero: at the origin, level,
    /// and at rest.
    pub fn at_rest() -> (s: State)
        ensures
            s@ == (StateM {
                x: 0,
                y: 0,
                z: 0,
                x_dot: 0,
                y_dot: 0,
                z_dot: 0,
                x_ddot: 0,
                y_ddot: 0,
                z_ddot: 0,
                phi: 0,
                theta: 0,
                psi: 0,
                phi_dot: 0,
                theta_dot: 0,
                psi_dot: 0,
                p: 0,
                q: 0,
                r: 0,
                p_dot: 0,
                q_dot: 0,
                r_dot: 0,
            }),
    {
        State {
            x: 0,
            y: 0,
            z: 0,
            x_dot: 0,
            y_dot: 0,
            z_dot: 0,
            x_ddot: 0,
            y_ddot: 0,
            z_ddot: 0,
            phi: 0,
            theta: 0,
            psi: 0,
            phi_dot: 0,
            theta_dot: 0,
            psi_dot: 0,
            p: 0,
            q: 0,
            r: 0,
            p_dot: 0,
            q_dot: 0,
            r_dot: 0,
        }
    }
}

/// The trajectory target an external goal source supplies: desired position
/// with its derivatives, plus the desired yaw and yaw rate. It may change
/// abruptly between outer ticks; the cascade tolerates the discontinuity.
#[derive(Clone, Copy, Debug, PartialEq, Eq, Structural)]
pub struct DesiredState {
    pub x: i64,
    pub y: i64,
    pub z: i64,
    pub x_dot: i64,
    pub y_dot: i64,
    pub z_dot: i64,
    pub x_ddot: i64,
    pub y_ddot: i64,
    pub z_ddot: i64,
    pub psi: i64,
    pub psi_dot: i64,
}

/// Mathematical view of [`DesiredState`].
pub ghost struct DesiredM {
    pub x: int,
    pub y: int,
    pub z: int,
    pub x_dot: int,
    pub y_dot: int,
    pub z_dot: int,
    pub x_ddot: int,
    pub y_ddot: int,
    pub z_ddot: int,
    pub psi: int,
    pub psi_dot: int,
}

impl View for DesiredState {
    type V = DesiredM;

    open spec fn view(&self) -> DesiredM {
        DesiredM {
            x: self.x as int,
            y: self.y as int,
            z: self.z as int,
            x_dot: self.x_dot as int,
            y_dot: self.y_dot as int,
            z_dot: self.z_dot as int,
            x_ddot: self.x_ddot as int,
            y_ddot: self.y_ddot as int,
            z_ddot: self.z_ddot as int,
            psi: self.psi as int,
            psi_dot: self.psi_dot as int,
        }
    }
}

/// Point the trajectory target at a new position goal, leaving the desired
/// rates and accelerations as they were.
pub fn set_new_goal(state_des: &mut DesiredState, g: (i64, i64, i64))
    ensures
        final(state_des)@ == (DesiredM {
            x: g.0 as int,
            y: g.1 as int,
            z: g.2 as int,
            ..old(state_des)@
        }),
{
    state_des.x = g.0;
    state_des.y = g.1;
    state_des.z = g.2;
}

/// What one outer tick freezes for its whole batch of inner ticks: the
/// clamped collective thrust and the attitude setpoint. It is the zero-order
/// hold of the cascade; the moment commands themselves are re-derived from it
/// by the attitude controller at every inner tick.
#[derive(Clone, Copy, Debug, PartialEq, Eq, Structural)]
pub struct ControlCommand {
    pub u1: i64,
    pub phi_c: i64,
    pub theta_c: i64,
    pub psi_c: i64,
}

/// Mathematical view of [`ControlCommand`].
pub ghost struct CommandM {
    pub u1: int,
    pub phi_c: int,
    pub theta_c: int,
    pub psi_c: int,
}

impl View for ControlCommand {
    type V = CommandM;

    open spec fn view(&self) -> CommandM {
        CommandM {
            u1: self.u1 as int,
            phi_c: self.phi_c as int,
            theta_c: self.theta_c as int,
            psi_c: self.psi_c as int,
        }
    }
}

} // verus!
