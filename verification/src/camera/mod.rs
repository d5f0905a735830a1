//! The main camera: its property and control codes, its command set, and the
//! decisions that its client makes.

pub mod client;
pub mod command;
pub mod data;
pub mod interface;
pub mod listing;
pub mod properties;
pub mod state;
pub mod aux;
