//! A PID feedback controller over an abstract numeric kind.
//!
//! The controller is a plain value that the caller drives: it is handed a
//! measurement and the elapsed time, and answers with a correction.

pub mod scalar;
pub mod clamping;
pub mod pid;
pub mod fixed;
pub mod laws;
