//! Fixed-step integration of ordinary differential equations for the
//! Sitnikov problem: a result buffer, a Newton-Raphson root finder,
//! a general (Runge-Kutta) integrator, symplectic (leapfrog and Yoshida)
//! integrators, and the Sitnikov model with its MEGNO chaos indicator.

pub mod error;
pub mod float;
pub mod function;
pub mod general;
pub mod matrix;
pub mod model;
pub mod newton_raphson;
pub mod rng;
pub mod symplectic;

pub use error::Error;
pub use float::Float;
pub use function::Function;
pub use newton_raphson::find_root_newton_raphson;
