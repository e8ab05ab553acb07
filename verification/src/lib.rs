//! A terminal torus animation, verified.
//!
//! The library holds everything that can be stated and proved: the
//! fixed-point arithmetic and trigonometry behind the projection, the
//! rasterizer with its z-buffered frame buffer, the control-flag protocol
//! shared between the render loop and the input listener, and the per-tick
//! decisions of the render loop itself. The terminal and keyboard belong to
//! the surrounding binary, which hands the library plain values.

pub mod fixed;
pub mod input;
pub mod present;
pub mod renderer;
pub mod state;
pub mod trig;
