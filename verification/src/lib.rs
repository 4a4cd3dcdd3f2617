//! A verified rigid-body physics core.
//!
//! The library advances linear and angular velocity, position, and
//! orientation of simulated bodies under a constant acceleration field,
//! decomposes off-center forces into translational and rotational parts,
//! and builds and inverts inertia tensors for canonical shapes.
//!
//! All state is carried in exact rational arithmetic (`rational::Rat`), so
//! every contract speaks of the mathematical value of each quantity and the
//! algebraic laws of the integrator hold exactly rather than up to rounding.
//! Conversions to and from machine floats are a host concern and stay
//! outside this crate.

pub mod camera;
pub mod components;
pub mod force;
pub mod inertia;
pub mod matrix;
pub mod quaternion;
pub mod rational;
pub mod simulation;
pub mod vector;
pub mod vector_arrows;
