//! The command line of the plane system.

use vstd::prelude::*;

verus! {

/// The command-line arguments: the path to the configuration file, and
/// optionally the path to a text file of commands to execute.
#[derive(Debug)]
pub struct MainArgs {
    pub config: String,
    pub script: Option<String>,
}

} // verus!
