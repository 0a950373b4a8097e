//! Cascaded flight-control law for a quadrotor, over saturating fixed-point
//! arithmetic.
//!
//! An outer loop tracks desired position and altitude, an inner loop tracks
//! attitude, and an explicit-Euler rigid-body step advances the vehicle state.
//! All quantities are held in micro-units (see [`fx::SCALE`]), so every
//! control law is an exact, verified function of its integer inputs.

pub mod controllers;
pub mod error;
pub mod fx;
pub mod laws;
pub mod params;
pub mod scheduler;
pub mod state;
pub mod trig;
pub mod vehicle;

pub use fx::SCALE;
