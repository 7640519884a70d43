//! Network message types.

use crate::types::{NodeInfo, NodeInfoView, ResourceContribution};
use vstd::prelude::*;

verus! {

/// Network message: the unit that peers exchange.
#[derive(Debug, PartialEq, Eq)]
pub enum Message {
    /// Ping message
    Ping,
    /// Pong response
    Pong,
    /// Node discovery
    Discovery {
        /// Node information
        node_info: NodeInfo,
    },
    /// Resource update
    ResourceUpdate {
        /// Resources being contributed
        resources: ResourceContribution,
    },
}

/// What a `Message` holds, as mathematical values.
pub enum MessageView {
    Ping,
    Pong,
    Discovery { node_info: NodeInfoView },
    ResourceUpdate { resources: ResourceContribution },
}

impl View for Message {
    type V = MessageView;

    open spec fn view(&self) -> MessageView {
        match self {
            Message::Ping => MessageView::Ping,
            Message::Pong => MessageView::Pong,
            Message::Discovery { node_info } => MessageView::Discovery { node_info: node_info@ },
            Message::ResourceUpdate { resources } => MessageView::ResourceUpdate {
                resources: *resources,
            },
        }
    }
}

impl Clone for Message {
    fn clone(&self) -> (copy: Self)
        ensures
            copy@ == self@,
    {
        match self {
            Message::Ping => Message::Ping,
            Message::Pong => Message::Pong,
            Message::Discovery { node_info } => Message::Discovery { node_info: node_info.clone() },
            Message::ResourceUpdate { resources } => Message::ResourceUpdate {
                resources: *resources,
            },
        }
    }
}

} // verus!
