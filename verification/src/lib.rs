//! Verified front end of a kinematics engine for six-axis CRX arms.
//!
//! Real numbers cross this library as IEEE-754 binary64 bit patterns held in
//! `u64`; the arithmetic on them is done by the caller. What is proved here is
//! everything around that arithmetic: the shape of joint vectors, pose
//! matrices and mesh buffers, the choice of the robot variant, and the
//! control decisions of the iterative inverse solver.

pub mod error;
pub mod joints;
pub mod scalar;
pub mod frame;
pub mod mesh;
pub mod robot;
pub mod solver;
pub mod limits;
