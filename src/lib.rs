//! A 2D drawing context that keeps a stack of style states and forwards
//! drawing commands, as self-contained messages, to a rendering worker.

pub mod context;
pub mod protocol;
pub mod renderer;
pub mod stack;
pub mod state;
