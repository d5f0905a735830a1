//! A client that answers every request after a pause, for testing the
//! command plumbing.

use vstd::prelude::*;

verus! {

/// A request to the dummy client.
#[derive(Clone, Copy, Debug, PartialEq, Eq, Structural)]
pub enum DummyRequest {
    Dummy,
}

/// The dummy client's answer.
#[derive(Clone, Copy, Debug, PartialEq, Eq, Structural)]
pub enum DummyResponse {
    Unit,
}

} // verus!
