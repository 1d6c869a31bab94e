//! Backend-connection supervisor for a desktop application shell.
//!
//! The supervisor decides at runtime whether the application talks to a
//! locally spawned compute server (standalone mode) or to a remote one
//! (remote mode), and keeps the advertised backend URL consistent with the
//! process that is actually running.  The mode state machine and the output
//! relay live here; the surrounding shell performs the actual process
//! launches, kills and printing, driven by the decisions these functions
//! return.

use vstd::prelude::*;

pub mod relay;
pub mod supervisor;

verus! {

/// The canonical URL of a locally spawned backend server.
pub open spec fn local_api_url() -> Seq<char> {
    "http://localhost:8080"@
}

/// The canonical local URL as an executable string.
pub fn canonical_local_url() -> (r: String)
    ensures
        r@ == local_api_url(),
{
    String::from_str("http://localhost:8080")
}

} // verus!
