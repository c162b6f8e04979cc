//! An n-body gravity kernel: fixed-point scalar arithmetic, 3-vector algebra,
//! a Keplerian-elements-to-state-vectors converter, a deterministic body-table
//! builder, and a pairwise symplectic-Euler integrator with collision
//! detection.
//!
//! All dynamical arithmetic is done in signed 64.32 fixed point (an `i128`
//! mantissa holding `value * 2^32`), so that every operation has an exact,
//! machine-checkable meaning: results saturate at the representable bounds
//! instead of overflowing, and each operation's result is pinned by a
//! specification function.

pub mod fixed;
pub mod vec3;
pub mod trig;
pub mod kepler;
pub mod system;
pub mod nbody;
