//! Network discovery.

use crate::types::{NodeId, NodeInfo};
use vstd::prelude::*;

verus! {

/// Discover peers in the network. It keeps no record of them yet.
#[derive(Debug, Clone, Copy, PartialEq, Eq)]
pub struct PeerDiscovery;

impl PeerDiscovery {
    /// Create a new peer discovery.
    pub fn new() -> (discovery: Self)
        ensures
            discovery == PeerDiscovery,
    {
        PeerDiscovery
    }

    /// Add a discovered peer. Nothing is tracked: the peer is taken and
    /// the discovery stays as it was.
    #[allow(unused_variables)]
    pub fn add_peer(&self, peer_id: NodeId, info: NodeInfo) {
    }
}

} // verus!
