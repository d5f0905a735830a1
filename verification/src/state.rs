//! The shared state of the plane system.

use vstd::prelude::*;

verus! {

/// What the plane is doing with its camera.
#[derive(Clone, Copy, Debug, PartialEq, Eq, Structural)]
pub enum Mode {
    Idle,
    Fixed,
    Tracking,
    OffAxis,
}

} // verus!
