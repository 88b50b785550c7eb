//! Frame-rate sampling and secondary-window bookkeeping for a multi-viewport
//! rendering benchmark.
//!
//! The crate holds the state machines that the benchmark's frame loop drives:
//! a one-counter frame-rate sampler and the controller that keeps one host
//! viewport identifier per secondary window. Window creation, drawing and
//! timers belong to the program around it.

pub mod decimal;
pub mod panel;
pub mod sampler;
pub mod viewports;
