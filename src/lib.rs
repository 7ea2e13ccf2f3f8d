//! Draws a single filled circle on a 2D drawing surface, one frame per update.
//!
//! The library decides what is drawn: each frame is a short list of drawing
//! commands, stated exactly in the contracts. The host runs those commands
//! against its own drawing context.

pub mod draw;
pub mod renderer;

pub use draw::{DrawOp, Paint};
pub use renderer::{Renderer, RendererError};
