//! Core logic of a first/third-person kinematic character controller.
//!
//! All scalar quantities (world units, radians, seconds) are carried as
//! signed 64-bit fixed-point numbers with [`fixed::FP_SCALE`] sub-units per
//! unit, so that the movement and camera state machines can be stated and
//! verified exactly. The surrounding engine (rendering, physics queries,
//! window and input plumbing) converts at the boundary.

pub mod camera;
pub mod controller;
pub mod fixed;
pub mod input;
