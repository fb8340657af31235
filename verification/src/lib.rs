//! Root finding by the secant method, generic over the scalar type.
//!
//! A [`Solver`] holds a tolerance, a perturbation step and an iteration cap.
//! [`Solver::solve`] starts from one guess, makes a second sample point beside
//! it, and follows secant updates until an update is smaller than the
//! tolerance, the two samples have equal values, or the cap is reached.
pub mod error;
pub mod scalar;
pub mod solver;

pub use error::Error;
pub use solver::{Builder, Config, Output, Samples, Settings, Solver};
