//! Verified core of the plane system: command parsing, camera property
//! bookkeeping, capture scheduling and MAVLink framing.

pub mod util;
pub mod camera;
mod seq_facts;
pub mod scheduler;
pub mod pixhawk;
pub mod cli;
pub mod command;
pub mod dummy;
pub mod gimbal;
pub mod gs;
pub mod state;
