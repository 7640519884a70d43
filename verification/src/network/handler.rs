//! What a node owes to a message that reaches it.

use crate::network::message::{Message, MessageView};
use crate::types::{NodeId, NodeInfo, NodeInfoView, ResourceContribution};
use vstd::prelude::*;

verus! {

/// What a handler does about one message.
#[derive(Debug, PartialEq, Eq)]
pub enum Reaction {
    /// Send `message` to the peer `to`.
    Reply { to: NodeId, message: Message },
    /// Record that `peer` acknowledged a ping.
    Liveness { peer: NodeId },
    /// Record what `peer` advertises of itself.
    Advertisement { peer: NodeId, info: NodeInfo },
    /// Record what `peer` contributes at present.
    Contribution { peer: NodeId, resources: ResourceContribution },
}

/// What a `Reaction` holds, as mathematical values.
pub enum ReactionView {
    Reply { to: Seq<u8>, message: MessageView },
    Liveness { peer: Seq<u8> },
    Advertisement { peer: Seq<u8>, info: NodeInfoView },
    Contribution { peer: Seq<u8>, resources: ResourceContribution },
}

impl View for Reaction {
    type V = ReactionView;

    open spec fn view(&self) -> ReactionView {
        match self {
            Reaction::Reply { to, message } => ReactionView::Reply { to: to@, message: message@ },
            Reaction::Liveness { peer } => ReactionView::Liveness { peer: peer@ },
            Reaction::Advertisement { peer, info } => ReactionView::Advertisement {
                peer: peer@,
                info: info@,
            },
            Reaction::Contribution { peer, resources } => ReactionView::Contribution {
                peer: peer@,
                resources: *resources,
            },
        }
    }
}

impl ReactionView {
    /// The messages that a reaction sends, each with the peer it goes to.
    pub open spec fn replies(self) -> Seq<(Seq<u8>, MessageView)> {
        match self {
            ReactionView::Reply { to, message } => seq![(to, message)],
            _ => Seq::empty(),
        }
    }
}

impl Reaction {
    /// The reply that the reaction sends, if it sends one.
    pub fn reply(self) -> (reply: Option<(NodeId, Message)>)
        ensures
            match reply {
                Some((to, message)) => self@.replies() == seq![(to@, message@)],
                None => self@.replies() == Seq::<(Seq<u8>, MessageView)>::empty(),
            },
    {
        match self {
            Reaction::Reply { to, message } => Some((to, message)),
            _ => None,
        }
    }
}

/// A handler that could not react to a message.
#[derive(Debug, PartialEq, Eq)]
pub struct HandlerError {
    /// Why the reaction failed.
    pub reason: String,
}

impl View for HandlerError {
    type V = Seq<char>;

    open spec fn view(&self) -> Seq<char> {
        self.reason@
    }
}

/// The view of what a handler returns.
pub open spec fn outcome_view(outcome: Result<Reaction, HandlerError>) -> Result<
    ReactionView,
    Seq<char>,
> {
    match outcome {
        Ok(reaction) => Ok(reaction@),
        Err(error) => Err(error@),
    }
}

/// What the dispatch policy of a node owes to a message from `source`:
/// a ping is answered with a pong to its sender, and everything else is
/// recorded and not answered.
pub open spec fn policy_reaction(source: Seq<u8>, message: MessageView) -> ReactionView {
    match message {
        MessageView::Ping => ReactionView::Reply { to: source, message: MessageView::Pong },
        MessageView::Pong => ReactionView::Liveness { peer: source },
        MessageView::Discovery { node_info } => ReactionView::Advertisement {
            peer: source,
            info: node_info,
        },
        MessageView::ResourceUpdate { resources } => ReactionView::Contribution {
            peer: source,
            resources,
        },
    }
}

/// A ping draws exactly one reply, a pong to the peer that sent it; no other
/// message draws a reply.
pub proof fn ping_alone_is_answered(source: Seq<u8>, message: MessageView)
    ensures
        message is Ping ==> policy_reaction(source, message).replies() == seq![
            (source, MessageView::Pong),
        ],
        !(message is Ping) ==> policy_reaction(source, message).replies() == Seq::<
            (Seq<u8>, MessageView),
        >::empty(),
{
}

/// Network event handler: the one callback to which the event loop hands
/// each message.
pub trait NetworkEventHandler {
    /// Whether `outcome` is what this handler may return for `message` from
    /// `source`. A handler that does not say so may return anything.
    open spec fn reacts(
        &self,
        source: Seq<u8>,
        message: MessageView,
        outcome: Result<ReactionView, Seq<char>>,
    ) -> bool {
        true
    }

    /// Handle a message from the network.
    fn handle_message(&self, source: NodeId, message: Message) -> (outcome: Result<
        Reaction,
        HandlerError,
    >)
        ensures
            self.reacts(source@, message@, outcome_view(outcome)),
    ;
}

/// The dispatch policy of a node, as a handler of its own.
#[derive(Debug, Clone, Copy, PartialEq, Eq)]
pub struct MessagePolicy;

/// The reaction that the dispatch policy owes to a message.
pub fn react(source: NodeId, message: Message) -> (reaction: Reaction)
    ensures
        reaction@ == policy_reaction(source@, message@),
{
    match message {
        Message::Ping => Reaction::Reply { to: source, message: Message::Pong },
        Message::Pong => Reaction::Liveness { peer: source },
        Message::Discovery { node_info } => Reaction::Advertisement { peer: source, info: node_info },
        Message::ResourceUpdate { resources } => Reaction::Contribution { peer: source, resources },
    }
}

impl NetworkEventHandler for MessagePolicy {
    open spec fn reacts(
        &self,
        source: Seq<u8>,
        message: MessageView,
        outcome: Result<ReactionView, Seq<char>>,
    ) -> bool {
        outcome == Ok::<ReactionView, Seq<char>>(policy_reaction(source, message))
    }

    fn handle_message(&self, source: NodeId, message: Message) -> (outcome: Result<
        Reaction,
        HandlerError,
    >) {
        Ok(react(source, message))
    }
}

} // verus!
