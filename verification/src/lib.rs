//! Drawing commands, the per-frame command buffer of a window, the input
//! state kept for the drawing thread, the decisions of the window event loop,
//! the batching state of the triangle renderer, and the planning of the text
//! layouts the backend keeps from frame to frame.
pub mod commands;
pub mod window;
pub mod events;
pub mod renderer;
pub mod backend;
pub mod text;
