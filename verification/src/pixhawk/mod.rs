//! The link to the Pixhawk flight controller: MAVLink framing and the
//! encoding of parameter requests.

pub mod frame;
pub mod params;
