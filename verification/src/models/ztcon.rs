//! The result of a connection probe between two clients.

use vstd::prelude::*;

verus! {

/// Result of waiting for a peer connection.
#[derive(Clone, Debug, PartialEq, Default)]
pub struct ConResult {
    pub elapsed_time: Option<u64>,
    pub name: String,
    pub address: String,
}

} // verus!
