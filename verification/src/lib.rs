//! A six-degree-of-freedom rigid-body simulation core over exact rational
//! arithmetic: attitude representations (quaternion, direction-cosine matrix,
//! Euler angles), rigid-body dynamics, and a generic fixed-step integrator.

use vstd::prelude::*;

pub mod control;
pub mod rational;
pub mod vector;
pub mod matrix;
pub mod quaternion;
pub mod integrate;
pub mod rigidbody;
pub mod laws;

verus! {

} // verus!
