//! Core state of an interactive N-body orbit simulator: the simulation
//! entities (bodies and their predicted trajectory curves), the camera
//! parameters, the screen-to-world coordinate transform, and the check
//! that decides when predicted curves have drifted from the bodies.
//!
//! All world-space quantities are kept in exact fixed-point arithmetic
//! (`Fx`, millionths of a world unit), and the coordinate transforms
//! return exact rationals (`Frac`), so every contract pins the result
//! as a mathematical value rather than a rounded approximation.

pub mod drawables;
pub mod state;
pub mod entities;
pub mod fixed;
pub mod frac;
mod ids;
