//! A block-matrix composition engine with a small kinematics layer on top.
//!
//! The core of the crate is the composition engine: a recursive block
//! expression (`Block`) over dense matrices (`Mat`), a shape algebra
//! (`Dimension`, `dim_add`, `unify`), and a two-phase evaluation protocol
//! (compute the shape, allocate one zero-filled buffer, populate it).
//! On top of the engine sit the matrix groups used in rigid-body
//! kinematics: `So3Matrix`, `Se3Matrix` and `Twist`, with verified
//! conversions between them.

pub mod concat;
pub mod conversions;
pub mod dims;
pub mod fixed;
pub mod groups;
pub mod helpers;
pub mod interfaces;
pub mod laws;
pub mod mat;
pub mod mat_ops;
