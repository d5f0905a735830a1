//! The gimbal that points the main camera.

use vstd::prelude::*;

verus! {

/// The answer of the gimbal client.
#[derive(Clone, Copy, Debug, PartialEq, Eq, Structural)]
pub enum GimbalResponse {
    Unit,
}

/// The protocol that a hardware gimbal speaks.
#[derive(Clone, Copy, Debug, PartialEq, Eq, Structural)]
pub enum GimbalProtocol {
    SimpleBGC,
}

/// Which gimbal the system drives: a device, or a simulation.
#[derive(Clone, Copy, Debug, PartialEq, Eq, Structural)]
pub enum GimbalKind {
    Hardware { protocol: GimbalProtocol },
    Software,
}

} // verus!
