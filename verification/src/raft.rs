//! The routing handle the consensus layer hands its network calls through.
//! The RPC dispatch itself lives with the embedding application's transport;
//! the handle carries no state of its own.

use vstd::prelude::*;

verus! {

/// Router for consensus RPC traffic between nodes.
#[derive(Debug, PartialEq, Eq, Structural)]
pub struct RaftRouter {}

impl RaftRouter {
    /// Create a new RaftRouter instance.
    pub fn new() -> (r: RaftRouter)
        ensures
            r == (RaftRouter {  }),
    {
        RaftRouter {  }
    }
}

impl Default for RaftRouter {
    fn default() -> (r: Self)
        ensures
            r == (RaftRouter {  }),
    {
        RaftRouter::new()
    }
}

} // verus!
