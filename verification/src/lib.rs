//! Turns host readings (processor load, memory, disk space, local time) into
//! labelled, colour-classified status segments and frames them for a status bar.

pub mod color;
pub mod decimal;
pub mod json;
pub mod schedule;
pub mod single;
pub mod status;
pub mod stream;
pub mod syntax;
pub mod system;
pub mod time;
pub mod values;
