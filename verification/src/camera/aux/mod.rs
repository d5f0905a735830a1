//! The auxiliary cameras: recording to files and streaming over the network.

pub mod save;
pub mod stream;
