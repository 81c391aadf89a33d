//! Verified decision logic of a small textured-quad renderer with a
//! first-person camera.
//!
//! The GPU, windowing and float-matrix work itself cannot be verified; what
//! can is the logic that drives it: which way the camera moves for the keys
//! that are held, what the event loop does after each render attempt, how
//! the surface configuration reacts to a resize, which surface format is
//! picked, that a pixel buffer matches its texture's shape, and the byte
//! layout of the vertex and index data.

pub mod camera;
pub mod frame;
pub mod mesh;
pub mod surface;
pub mod tex2d;
