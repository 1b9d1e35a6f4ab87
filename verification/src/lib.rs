//! A small gravitational n-body simulation: force accumulation, three
//! integration schemes (explicit Euler, leapfrog, classical Runge-Kutta) and
//! an energy diagnostic, together with the bookkeeping around them.
//!
//! The library is generic over the kind of number it computes with (see
//! [`scalar::Scalar`]). Its contracts fix the structure of every computation:
//! which bodies are paired, in what order terms are summed, which value each
//! update reads. They claim nothing about the arithmetic itself.

pub mod body;
pub mod integrator;
pub mod laws;
pub mod panel;
pub mod scalar;
pub mod trail;
pub mod vec2;
pub mod world;
