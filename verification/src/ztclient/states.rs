//! The backend states of a client that scenarios wait for. A client may
//! report other states; they are compared as text and never interpreted.

use vstd::prelude::*;

verus! {

/// The client is connected to the mesh.
pub const RUNNING_STATE: &'static str = "Running";

/// The client waits for a registration to complete.
pub const NEEDS_LOGIN_STATE: &'static str = "NeedsLogin";

} // verus!
