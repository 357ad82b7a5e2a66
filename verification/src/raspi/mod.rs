//! The single-board computers that the node runs on: their models and
//! their GPIO lines.

pub mod cpuinfo;
pub mod gpio;
pub mod model;
