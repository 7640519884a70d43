//! Basic data structures of the network.

use crate::utils::{bytes_to_hex, hex_encoding};
use vstd::prelude::*;

verus! {

/// Unique identifier for a node: an opaque byte string.
#[derive(Debug, PartialEq, Eq, Hash)]
pub struct NodeId(pub Vec<u8>);

impl View for NodeId {
    type V = Seq<u8>;

    open spec fn view(&self) -> Seq<u8> {
        self.0@
    }
}

impl Clone for NodeId {
    fn clone(&self) -> (copy: Self)
        ensures
            copy@ == self@,
    {
        NodeId(self.0.clone())
    }
}

impl NodeId {
    /// The identifier as text: the lower-case hexadecimal digits of its bytes.
    pub fn to_string(&self) -> (text: String)
        ensures
            text@ == hex_encoding(self@),
    {
        bytes_to_hex(self.0.as_slice())
    }
}

/// Resources a node is contributing: one snapshot of what it offers.
#[derive(Clone, Copy, Debug, PartialEq, Eq, Structural)]
pub struct ResourceContribution {
    /// CPU cores
    pub cpu_cores: u8,
    /// Memory in megabytes
    pub memory_mb: u64,
    /// Storage in megabytes
    pub storage_mb: u64,
    /// Bandwidth in kbps
    pub bandwidth_kbps: u64,
}

/// Node type in the network.
#[derive(Clone, Copy, Debug, PartialEq, Eq, Structural)]
pub enum NodeType {
    /// Standard node providing resources
    ResourceProvider,
    /// Coordinator for task distribution
    Coordinator,
    /// Bridge to another network
    Bridge,
}

/// Node information: what a node advertises of itself.
#[derive(Debug, PartialEq, Eq)]
pub struct NodeInfo {
    /// Unique identifier
    pub id: NodeId,
    /// Type of node
    pub node_type: NodeType,
    /// Resources contributed
    pub resources: ResourceContribution,
    /// Network address
    pub address: String,
}

/// What a `NodeInfo` holds, as mathematical values.
pub struct NodeInfoView {
    pub id: Seq<u8>,
    pub node_type: NodeType,
    pub resources: ResourceContribution,
    pub address: Seq<char>,
}

impl View for NodeInfo {
    type V = NodeInfoView;

    open spec fn view(&self) -> NodeInfoView {
        NodeInfoView {
            id: self.id@,
            node_type: self.node_type,
            resources: self.resources,
            address: self.address@,
        }
    }
}

impl Clone for NodeInfo {
    fn clone(&self) -> (copy: Self)
        ensures
            copy@ == self@,
    {
        NodeInfo {
            id: self.id.clone(),
            node_type: self.node_type,
            resources: self.resources,
            address: self.address.clone(),
        }
    }
}

/// Status of a node.
#[derive(Debug, PartialEq, Eq)]
pub enum NodeStatus {
    /// Node is starting up
    Starting,
    /// Node is fully operational
    Running,
    /// Node is shutting down
    ShuttingDown,
    /// Node has encountered an error
    Error(String),
}

/// What a `NodeStatus` holds, as mathematical values.
pub enum NodeStatusView {
    Starting,
    Running,
    ShuttingDown,
    Error(Seq<char>),
}

impl View for NodeStatus {
    type V = NodeStatusView;

    open spec fn view(&self) -> NodeStatusView {
        match self {
            NodeStatus::Starting => NodeStatusView::Starting,
            NodeStatus::Running => NodeStatusView::Running,
            NodeStatus::ShuttingDown => NodeStatusView::ShuttingDown,
            NodeStatus::Error(reason) => NodeStatusView::Error(reason@),
        }
    }
}

impl Clone for NodeStatus {
    fn clone(&self) -> (copy: Self)
        ensures
            copy@ == self@,
    {
        match self {
            NodeStatus::Starting => NodeStatus::Starting,
            NodeStatus::Running => NodeStatus::Running,
            NodeStatus::ShuttingDown => NodeStatus::ShuttingDown,
            NodeStatus::Error(reason) => NodeStatus::Error(reason.clone()),
        }
    }
}

impl NodeStatusView {
    /// The place of a status in the life of a node. A node moves forward
    /// only; the error status is the last place, reached from anywhere.
    pub open spec fn rank(self) -> int {
        match self {
            NodeStatusView::Starting => 0,
            NodeStatusView::Running => 1,
            NodeStatusView::ShuttingDown => 2,
            NodeStatusView::Error(_) => 3,
        }
    }

    /// Whether a node whose status is `self` may next have the status `next`:
    /// it keeps its status, or moves forward, and never leaves the error status.
    pub open spec fn may_become(self, next: NodeStatusView) -> bool {
        self == next || self.rank() < next.rank()
    }
}

} // verus!
