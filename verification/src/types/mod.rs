//! The data that nodes hold and exchange.

pub mod primitives;

pub use primitives::{
    NodeId, NodeInfo, NodeInfoView, NodeStatus, NodeStatusView, NodeType, ResourceContribution,
};
