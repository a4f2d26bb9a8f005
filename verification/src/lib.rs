//! A double buffer: two values of one type, one readable as the current
//! state, the other writable as the next state, and three ways to commit
//! the next state as the current one.

pub mod buffer;
pub mod access;
pub mod compare;
pub mod laws;
pub mod render;

pub use buffer::{BufferView, DoubleBuffer};
