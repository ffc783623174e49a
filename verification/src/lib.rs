//! Verified decision logic of a floating-capsule first-person character
//! controller and its look camera.
//!
//! The physics (forces, springs, rotations) works on floating-point values and
//! lives with the engine glue; this crate holds the discrete rules that drive it:
//! how key presses become a movement intent, which systems the controller plugin
//! registers and in what order, when a jump may fire, and what an active look
//! camera does to the cursor and to the transforms it rotates.

pub mod camera;
pub mod gates;
pub mod input;
pub mod schedule;
