//! Deciding when to capture images.

pub mod backend;
pub mod state;

use vstd::prelude::*;

verus! {

/// The kind of a region of interest.
#[derive(Clone, Copy, Debug, PartialEq, Eq, Structural)]
pub enum RoiKind {
    Normal,
    OffAxis,
    EmergentTarget,
}

} // verus!
