//! Exact-value tests of the three controllers, the constructors, and the
//! error variants.

use quadsim::controllers::altitude_controller;
use quadsim::controllers::attitude_controller;
use quadsim::controllers::position_controller;
use quadsim::error::ControlError;
use quadsim::params::Params;
use quadsim::params::ThrustModel;
use quadsim::state::DesiredState;
use quadsim::state::State;
use quadsim::vehicle::Quadrotor;

fn desired_at_rest() -> DesiredState {
    DesiredState {
        x: 0,
        y: 0,
        z: 0,
        x_dot: 0,
        y_dot: 0,
        z_dot: 0,
        x_ddot: 0,
        y_ddot: 0,
        z_ddot: 0,
        psi: 0,
        psi_dot: 0,
    }
}

#[test]
fn hover_gives_exact_hover_thrust_and_zero_moments() {
    // State equals DesiredState exactly, accumulators zero: u1 == m * g.
    let state = State::at_rest();
    let desired = desired_at_rest();
    let mut params = Params::new();
    let mass: i64 = 180_000;  // 0.18 kg
    let u1 = altitude_controller(&state, &desired, &mut params, mass).unwrap();
    assert_eq!(u1, 1_765_800);  // 0.18 * 9.81 == 1.7658
    let (phi_c, theta_c, psi_c) = position_controller(&state, &desired, &mut params);
    assert_eq!((phi_c, theta_c, psi_c), (0, 0, 0));
    let u2 = attitude_controller(&state, &desired, &params, phi_c, theta_c, psi_c);
    assert_eq!(u2, (0, 0, 0));
    // accumulators saw zero error
    assert_eq!(params.integral_error_z, 0);
    assert_eq!(params.integral_error_x, 0);
    assert_eq!(params.integral_error_y, 0);
}

#[test]
fn hover_thrust_is_the_same_under_the_tilt_compensated_law() {
    let state = State::at_rest();
    let desired = desired_at_rest();
    let mut params = Params::new();
    params.thrust_model = ThrustModel::TiltCompensated;
    let u1 = altitude_controller(&state, &desired, &mut params, 180_000).unwrap();
    assert_eq!(u1, 1_765_800);
}

#[test]
fn altitude_controller_matches_the_pid_formula_exactly() {
    let state = State::at_rest();
    let mut desired = desired_at_rest();
    desired.z = 10_000_000;  // 10 m above
    let mut params = Params::new();
    params.kp_z = 130_000_000;
    params.kv_z = 40_000_000;
    params.ki_z = 0;
    // acc = kp * e = 130 * 10 = 1300; u1 = 0.18 * (9.81 + 1300)
    let u1 = altitude_controller(&state, &desired, &mut params, 180_000).unwrap();
    assert_eq!(u1, 235_765_800);
    // the accumulator took one step of e * dt = 10 * 0.1
    assert_eq!(params.integral_error_z, 1_000_000);
}

#[test]
fn altitude_integral_term_feeds_back_into_the_thrust() {
    let state = State::at_rest();
    let mut desired = desired_at_rest();
    desired.z = 10_000_000;
    let mut params = Params::new();
    params.kp_z = 0;
    params.kv_z = 0;
    params.ki_z = 2_000_000;  // ki = 2
    let u1 = altitude_controller(&state, &desired, &mut params, 180_000).unwrap();
    // accumulator = 10 * 0.1 = 1; acc = ki * 1 = 2; u1 = 0.18 * (9.81 + 2)
    assert_eq!(params.integral_error_z, 1_000_000);
    assert_eq!(u1, 2_125_800);
}

#[test]
fn integral_accumulator_grows_linearly_under_constant_error() {
    // Constant error held for k outer ticks leaves exactly k * e * dt.
    let state = State::at_rest();
    let mut desired = desired_at_rest();
    desired.z = 7_000_000;
    let mut params = Params::new();
    let inc = 700_000;  // e * dt = 7 * 0.1
    for k in 1..=25i64 {
        altitude_controller(&state, &desired, &mut params, 180_000).unwrap();
        assert_eq!(params.integral_error_z, k * inc);
    }
}

#[test]
fn attitude_controller_matches_the_pd_formula_exactly() {
    let mut state = State::at_rest();
    state.phi = 100_000;  // 0.1 rad
    state.p = 50_000;  // 0.05 rad/s
    let desired = desired_at_rest();
    let params = Params::new();  // kp_angle = kv_angle = 15
    let (u2_roll, u2_pitch, u2_yaw) = attitude_controller(&state, &desired, &params, 0, 0, 0);
    // 15 * (0 - 0.1) + 15 * (0 - 0.05) = -2.25
    assert_eq!(u2_roll, -2_250_000);
    assert_eq!(u2_pitch, 0);
    assert_eq!(u2_yaw, 0);
}

#[test]
fn attitude_controller_tracks_the_desired_yaw_rate() {
    let mut state = State::at_rest();
    state.r = 200_000;  // 0.2 rad/s of yaw rate
    let mut desired = desired_at_rest();
    desired.psi_dot = 500_000;  // commanded 0.5 rad/s
    let params = Params::new();
    let (_, _, u2_yaw) = attitude_controller(&state, &desired, &params, 0, 0, 0);
    // 15 * (0 - 0) + 15 * (0.5 - 0.2) = 4.5
    assert_eq!(u2_yaw, 4_500_000);
}

#[test]
fn position_controller_matches_the_formula_at_zero_yaw() {
    let state = State::at_rest();
    let mut desired = desired_at_rest();
    desired.x = 2_000_000;  // 2 m ahead
    desired.y = -1_000_000;  // 1 m to the side
    let mut params = Params::new();
    params.kp_xy = 22_000_000;
    params.kv_xy = 0;
    params.ki_xy = 0;
    let (phi_c, theta_c, psi_c) = position_controller(&state, &desired, &mut params);
    // xdd_c = 22 * 2 = 44; ydd_c = 22 * -1 = -22; at psi = 0:
    // phi_c = -ydd_c / g = 22 / 9.81; theta_c = xdd_c / g = 44 / 9.81
    assert_eq!(phi_c, 2_242_609);
    assert_eq!(theta_c, 4_485_219);
    assert_eq!(psi_c, 0);
    // each lateral accumulator took its step: e * dt
    assert_eq!(params.integral_error_x, 200_000);
    assert_eq!(params.integral_error_y, -100_000);
}

#[test]
fn quadrotor_rejects_a_non_positive_mass() {
    assert_eq!(Quadrotor::new(0, State::at_rest()), Err(ControlError::NonPositiveMass));
    assert_eq!(Quadrotor::new(-180_000, State::at_rest()), Err(ControlError::NonPositiveMass));
    assert!(Quadrotor::new(180_000, State::at_rest()).is_ok());
}

#[test]
fn quadrotor_new_sets_the_reference_envelope() {
    let quad = Quadrotor::new(180_000, State::at_rest()).unwrap();
    assert_eq!(quad.mass, 180_000);
    assert_eq!(quad.u_min, 0);
    assert_eq!(quad.u_max, 3_531_600);  // twice the hover thrust
    assert_eq!((quad.ixx, quad.iyy, quad.izz), (1_000_000, 1_000_000, 1_000_000));
}

#[test]
fn tilt_compensated_thrust_reports_the_singularity_at_heavy_roll() {
    // 89.9 degrees of roll: cos(phi) ~ 0.0017, far inside the singular band.
    let mut state = State::at_rest();
    state.phi = 1_569_051;
    let desired = desired_at_rest();
    let mut params = Params::new();
    params.thrust_model = ThrustModel::TiltCompensated;
    let before = params;
    let r = altitude_controller(&state, &desired, &mut params, 180_000);
    assert_eq!(r, Err(ControlError::TiltSingular));
    // nothing changed, not even the accumulator
    assert_eq!(params, before);
}

#[test]
fn tilt_compensated_thrust_is_amplified_but_bounded_outside_the_band() {
    // 60 degrees of roll: cos(phi) ~ 0.5, thrust roughly doubles.
    let mut state = State::at_rest();
    state.phi = 1_047_198;
    let desired = desired_at_rest();
    let mut params = Params::new();
    params.thrust_model = ThrustModel::TiltCompensated;
    let u1 = altitude_controller(&state, &desired, &mut params, 180_000).unwrap();
    assert!((u1 - 3_531_600).abs() <= 40);
    // well under any sanity bound of 100 * m * g
    assert!(u1 < 100 * 1_765_800);
}

#[test]
fn update_state_reports_the_pitch_singularity_and_keeps_the_state() {
    let mut state = State::at_rest();
    state.theta = 1_553_343;  // 89 degrees of pitch
    let mut quad = Quadrotor::new(180_000, state).unwrap();
    let before = quad;
    let params = Params::new();
    let r = quad.update_state(1_765_800, (0, 0, 0), &params, 10_000);
    assert_eq!(r, Err(ControlError::PitchSingular));
    assert_eq!(quad, before);
}

#[test]
fn update_state_integrates_a_vertical_step_exactly() {
    let mut quad = Quadrotor::new(180_000, State::at_rest()).unwrap();
    let params = Params::new();
    // u1 = 2 * m * g makes z_ddot = u1/m - g = g exactly
    quad.update_state(3_531_600, (0, 0, 0), &params, 100_000).unwrap();
    assert_eq!(quad.state.z_ddot, 9_810_000);
    assert_eq!(quad.state.z_dot, 981_000);  // g * 0.1
    assert_eq!(quad.state.z, 98_100);  // z_dot * 0.1
    // level attitude stays level
    assert_eq!((quad.state.phi, quad.state.theta, quad.state.psi), (0, 0, 0));
    assert_eq!((quad.state.p, quad.state.q, quad.state.r), (0, 0, 0));
}

#[test]
fn update_state_applies_a_roll_moment_through_the_rigid_body_equations() {
    let mut quad = Quadrotor::new(180_000, State::at_rest()).unwrap();
    let params = Params::new();
    // pure roll moment of 0.5 with Ixx = 1: p_dot = 0.5, dt = 0.1
    quad.update_state(1_765_800, (500_000, 0, 0), &params, 100_000).unwrap();
    assert_eq!(quad.state.p_dot, 500_000);
    assert_eq!(quad.state.p, 50_000);
    // phi_dot picks up the fresh body rate exactly (level attitude: phi_dot == p)
    assert_eq!(quad.state.phi_dot, 50_000);
    assert_eq!(quad.state.phi, 5_000);
    assert_eq!((quad.state.q, quad.state.r), (0, 0));
}

#[test]
fn error_descriptions_are_distinct() {
    let a = ControlError::NonPositiveMass.describe();
    let b = ControlError::TiltSingular.describe();
    let c = ControlError::PitchSingular.describe();
    assert!(!a.is_empty() && !b.is_empty() && !c.is_empty());
    assert!(a != b && b != c && a != c);
}

#[test]
fn params_new_gives_the_reference_configuration() {
    let p = Params::new();
    assert_eq!((p.integral_error_z, p.integral_error_x, p.integral_error_y), (0, 0, 0));
    assert_eq!((p.kv_z, p.kp_z, p.ki_z), (60_000_000, 40_000_000, 0));
    assert_eq!((p.kv_xy, p.kp_xy, p.ki_xy), (90_000_000, 22_000_000, 0));
    assert_eq!((p.kv_angle, p.kp_angle, p.ki_angle), (15_000_000, 15_000_000, 0));
    assert_eq!(p.dt, 100_000);
    assert_eq!(p.gravity, 9_810_000);
    assert_eq!(p.thrust_model, ThrustModel::Untilted);
    assert_eq!(p.inner_iters, 10);
}

#[test]
fn set_new_goal_updates_only_the_position_target() {
    let mut desired = desired_at_rest();
    desired.x_dot = 10_000;
    desired.psi = 300_000;
    quadsim::state::set_new_goal(&mut desired, (1_000_000, 2_000_000, 3_000_000));
    assert_eq!((desired.x, desired.y, desired.z), (1_000_000, 2_000_000, 3_000_000));
    assert_eq!(desired.x_dot, 10_000);
    assert_eq!(desired.psi, 300_000);
    assert_eq!((desired.x_ddot, desired.psi_dot), (0, 0));
}
