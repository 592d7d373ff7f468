//! A classical fourth-order Runge-Kutta stepper for equations of motion,
//! built on a three-component vector over an abstract scalar.
pub mod rk4th;
pub mod scalar;
pub mod vector;
