//! Verified core of a 3D iterated-function-system renderer: pixel packing,
//! frame buffers and their 2x2 resolve, depth-tested plotting, palette
//! cycling, colour blending, the integer state machine that drives each
//! fractal iteration, the bottom-plane walker and the keyboard controls.

pub mod constants;
pub mod color;
pub mod buffers;
pub mod palette;
pub mod shading;
mod rng;
pub mod fractal;
pub mod bottom;
pub mod controls;
