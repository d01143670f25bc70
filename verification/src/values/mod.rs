//! Readings as display segments.

pub mod system;
pub mod time;
