//! A 2D point-cloud visualizer core: a procedural spiral-galaxy generator,
//! an orthographic 2D camera with pan and zoom, and the 4x4 affine transform
//! math both are built on.
//!
//! All scalars are fixed-point numbers: an `i64` holding the real value
//! multiplied by 65536. The rendering collaborator that consumes the
//! per-instance buffers and matrices converts them to its own float format
//! at the boundary; everything here is exact integer arithmetic.

pub mod fixed;
pub mod trig;
pub mod mat4;
pub mod rng;
pub mod cam2d;
pub mod transform2d;
pub mod utils;
