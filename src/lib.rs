//! Plain-value core of a small wgpu quad renderer: the fixed quad geometry,
//! the vertex layout and draw call that must agree with it, texture copy
//! planning, and the timer-driven frame loop as a state machine.
pub mod geometry;
pub mod texture;
pub mod frame;
