//! Input rules for dragging a ball across a 3D scene with the mouse.
//!
//! The rendering, windowing and the floating-point coordinate transforms are
//! left to the engine; this crate decides, from the mouse events of one frame,
//! what is done to the ball and in which order.
mod input;
mod plan;

pub use input::{ButtonEvent, ButtonState, MouseButtonKind};
pub use plan::{ball_steps, reads_input, BallStep};
