//! The node: its life cycle, and how it wires the resource monitor and the
//! protocol layer together.

use crate::config::{Settings, SettingsView};
use crate::network::handler::{
    policy_reaction, react, HandlerError, MessagePolicy, NetworkEventHandler, Reaction,
    ReactionView,
};
use crate::network::message::{Message, MessageView};
use crate::network::protocol::{
    multiaddr_of, peer_id_of, LoopAction, LoopEvent, NetworkError, NetworkManager, ProtocolState,
    TransportParts,
};
use crate::resource::monitor::ResourceMonitor;
use crate::types::{
    NodeId, NodeInfo, NodeInfoView, NodeStatus, NodeStatusView, NodeType, ResourceContribution,
};
use vstd::prelude::*;

verus! {

/// Seconds between two checks of the node's status while it runs.
pub const SUPERVISION_INTERVAL_SECS: u64 = 30;

/// The node type that a configured name stands for. A name that is not
/// recognised stands for a resource provider.
pub open spec fn node_type_of(name: Seq<char>) -> NodeType {
    if name == "Coordinator"@ {
        NodeType::Coordinator
    } else if name == "Bridge"@ {
        NodeType::Bridge
    } else {
        NodeType::ResourceProvider
    }
}

/// The node type that a configured name stands for.
pub fn parse_node_type(name: &str) -> (node_type: NodeType)
    ensures
        node_type == node_type_of(name@),
{
    let name = name.to_owned();
    if name == "Coordinator".to_owned() {
        NodeType::Coordinator
    } else if name == "Bridge".to_owned() {
        NodeType::Bridge
    } else {
        NodeType::ResourceProvider
    }
}

/// The status that follows `status` once the node runs: a starting node is
/// running, and any other status stays.
pub open spec fn once_running(status: NodeStatusView) -> NodeStatusView {
    match status {
        NodeStatusView::Starting => NodeStatusView::Running,
        other => other,
    }
}

/// The status that follows `status` once a stop is asked for: the node is
/// shutting down, unless it has failed, which is final.
pub open spec fn once_stopped(status: NodeStatusView) -> NodeStatusView {
    match status {
        NodeStatusView::Error(reason) => NodeStatusView::Error(reason),
        _ => NodeStatusView::ShuttingDown,
    }
}

/// The status that follows `status` once the node fails for `reason`: the
/// error status, which keeps the reason of the first failure.
pub open spec fn once_failed(status: NodeStatusView, reason: Seq<char>) -> NodeStatusView {
    match status {
        NodeStatusView::Error(first) => NodeStatusView::Error(first),
        _ => NodeStatusView::Error(reason),
    }
}

/// Every change of status that the node makes moves forward in its life.
pub proof fn status_moves_forward(status: NodeStatusView, reason: Seq<char>)
    ensures
        status.may_become(once_running(status)),
        status.may_become(once_stopped(status)),
        status.may_become(once_failed(status, reason)),
{
}

/// What the supervision of a running node decides at each check.
#[derive(Debug, PartialEq, Eq)]
pub enum Supervision {
    /// The node runs: this is what it advertises now; check again after
    /// `SUPERVISION_INTERVAL_SECS` seconds.
    Continue(NodeInfo),
    /// The node does not run any more: supervision ends.
    Stop(NodeStatus),
}

/// Node implementation
pub struct Node {
    settings: Settings,
    network: NetworkManager<MessagePolicy>,
    status: NodeStatus,
    node_info: NodeInfo,
    resource_monitor: ResourceMonitor,
}

impl NetworkEventHandler for Node {
    open spec fn reacts(
        &self,
        source: Seq<u8>,
        message: MessageView,
        outcome: Result<ReactionView, Seq<char>>,
    ) -> bool {
        outcome == Ok::<ReactionView, Seq<char>>(policy_reaction(source, message))
    }

    fn handle_message(&self, source: NodeId, message: Message) -> (outcome: Result<
        Reaction,
        HandlerError,
    >) {
        Ok(react(source, message))
    }
}

impl Node {
    /// The settings that the node was made with.
    pub closed spec fn settings(&self) -> SettingsView {
        self.settings@
    }

    /// The status of the node.
    pub closed spec fn status(&self) -> NodeStatusView {
        self.status@
    }

    /// What the node advertises of itself.
    pub closed spec fn info(&self) -> NodeInfoView {
        self.node_info@
    }

    /// The protocol layer of the node.
    pub closed spec fn network(&self) -> NetworkManager<MessagePolicy> {
        self.network
    }

    /// The resource monitor of the node.
    pub closed spec fn monitor(&self) -> ResourceMonitor {
        self.resource_monitor
    }

    /// What holds of every node: it advertises the identity of its protocol
    /// layer, the type and the address of its settings, and its monitor has
    /// the ceilings of its settings.
    pub open spec fn wf(&self) -> bool {
        &&& self.info().id == self.network().identity()
        &&& self.info().node_type == node_type_of(self.settings().node_type)
        &&& self.info().address == self.settings().listen_address
        &&& self.monitor().cpu_ceiling() == self.settings().max_cpu_usage
        &&& self.monitor().memory_ceiling() == self.settings().max_memory_usage
        &&& self.monitor().storage_ceiling() == self.settings().max_storage_usage
    }

    /// The node that is put together from its settings and its protocol
    /// layer: it is starting, advertises the identity of the layer, the type
    /// and the address of the settings, and the contribution that its
    /// monitor holds before the first sample. The monitor has the ceilings
    /// of the settings.
    pub fn assembled(settings: Settings, network: NetworkManager<MessagePolicy>) -> (node: Self)
        ensures
            node.wf(),
            node.settings() == settings@,
            node.network() == network,
            node.status() == NodeStatusView::Starting,
            node.info().resources == node.monitor().latest(),
            node.info().resources.memory_mb == 0,
            node.info().resources.storage_mb == 0,
            node.info().resources.bandwidth_kbps == 0,
    {
        let node_type = parse_node_type(settings.node.node_type.as_str());
        let node_id = network.local_peer_id();
        let resource_monitor = ResourceMonitor::new(
            settings.node.max_cpu_usage,
            settings.node.max_memory_usage,
            settings.node.max_storage_usage,
        );
        let resources = resource_monitor.get_contribution();
        let node_info = NodeInfo {
            id: node_id,
            node_type,
            resources,
            address: settings.network.listen_address.clone(),
        };
        Node { settings, network, status: NodeStatus::Starting, node_info, resource_monitor }
    }

    /// Create a new node: a protocol layer with a fresh identity, and the
    /// node put together from the settings and that layer. The node
    /// advertises the peer identifier of the key pair that its layer holds.
    pub fn new(settings: Settings) -> (created: Result<Self, NetworkError>)
        ensures
            match created {
                Ok(node) => {
                    &&& node.wf()
                    &&& node.settings() == settings@
                    &&& node.status() == NodeStatusView::Starting
                    &&& node.info().resources == node.monitor().latest()
                    &&& node.info().resources.memory_mb == 0
                    &&& node.info().resources.storage_mb == 0
                    &&& node.info().resources.bandwidth_kbps == 0
                    &&& node.info().id.len() > 0
                    &&& node.network().key_pair() matches Some(key) && node.info().id
                        == peer_id_of(key)
                    &&& node.network().state() == ProtocolState::Constructed
                    &&& node.network().handler() is None
                    &&& node.network().holds_parts()
                },
                Err(error) => error is ProtocolInit,
            },
    {
        match NetworkManager::<MessagePolicy>::new(&settings) {
            Ok(network) => Ok(Self::assembled(settings, network)),
            Err(error) => Err(error),
        }
    }

    /// The status of the node, as a copy.
    pub fn get_status(&self) -> (status: NodeStatus)
        ensures
            status@ == self.status(),
    {
        self.status.clone()
    }

    /// What the node advertises of itself, as a copy.
    pub fn get_info(&self) -> (info: NodeInfo)
        ensures
            info@ == self.info(),
    {
        self.node_info.clone()
    }

    /// The contribution that the node's monitor holds at present.
    pub fn get_contribution(&self) -> (contribution: ResourceContribution)
        ensures
            contribution == self.monitor().latest(),
    {
        self.resource_monitor.get_contribution()
    }

    /// Records that the node has failed for `reason`.
    fn fail(&mut self, reason: String)
        ensures
            final(self).status() == once_failed(old(self).status(), reason@),
            final(self).settings() == old(self).settings(),
            final(self).info() == old(self).info(),
            final(self).network() == old(self).network(),
            final(self).monitor() == old(self).monitor(),
    {
        match self.status {
            NodeStatus::Error(_) => {},
            _ => {
                self.status = NodeStatus::Error(reason);
            },
        }
    }

    /// Run the node, as far as the decision what to bind: the node installs
    /// its dispatch policy as the handler of the protocol layer and names
    /// the listen address, in binary form, that the transport is to bind.
    /// An address that is none, or a layer that was started before, is a
    /// bind error, and the node has failed.
    pub fn run(&mut self) -> (target: Result<Vec<u8>, NetworkError>)
        ensures
            old(self).wf() ==> final(self).wf(),
            final(self).settings() == old(self).settings(),
            final(self).info() == old(self).info(),
            final(self).monitor() == old(self).monitor(),
            final(self).network().identity() == old(self).network().identity(),
            final(self).network().state() == old(self).network().state(),
            final(self).network().key_pair() == old(self).network().key_pair(),
            final(self).network().handler() == Some(MessagePolicy),
            target is Ok <==> old(self).network().state() == ProtocolState::Constructed
                && multiaddr_of(old(self).settings().listen_address) is Some,
            match target {
                Ok(bytes) => multiaddr_of(old(self).settings().listen_address) == Some(bytes@)
                    && final(self).status() == old(self).status(),
                Err(error) => error is Bind && final(self).status() == once_failed(
                    old(self).status(),
                    error@.text(),
                ),
            },
    {
        self.network.set_handler(MessagePolicy);
        match self.network.listen_target(self.settings.network.listen_address.as_str()) {
            Ok(bytes) => Ok(bytes),
            Err(error) => {
                self.fail(error.to_string());
                Err(error)
            },
        }
    }

    /// Goes on with a run once the transport has tried to bind the listen
    /// address. Where it was bound, the protocol layer listens and a
    /// starting node is running; where it was not, the node has failed with
    /// a bind error.
    pub fn bound(&mut self, outcome: Result<(), String>) -> (started: Result<(), NetworkError>)
        ensures
            old(self).wf() ==> final(self).wf(),
            final(self).settings() == old(self).settings(),
            final(self).info() == old(self).info(),
            final(self).monitor() == old(self).monitor(),
            final(self).network().identity() == old(self).network().identity(),
            final(self).network().handler() == old(self).network().handler(),
            final(self).network().key_pair() == old(self).network().key_pair(),
            started is Ok <==> old(self).network().state() == ProtocolState::Constructed
                && outcome is Ok,
            match started {
                Ok(_) => final(self).network().state() == ProtocolState::Listening && final(self).status() == once_running(old(self).status()),
                Err(error) => error is Bind && final(self).network().state() == old(self).network().state() && final(self).status() == once_failed(
                    old(self).status(),
                    error@.text(),
                ),
            },
    {
        match self.network.start(outcome) {
            Ok(()) => {
                match self.status {
                    NodeStatus::Starting => {
                        self.status = NodeStatus::Running;
                    },
                    _ => {},
                }
                Ok(())
            },
            Err(error) => {
                self.fail(error.to_string());
                Err(error)
            },
        }
    }

    /// One check of the supervision: a running node goes on, and advertises
    /// the contribution that its monitor holds now; a node with any other
    /// status is no longer supervised.
    pub fn supervise(&self) -> (decision: Supervision)
        ensures
            match decision {
                Supervision::Continue(info) => self.status() == NodeStatusView::Running && info@
                    == (NodeInfoView { resources: self.monitor().latest(), ..self.info() }),
                Supervision::Stop(status) => self.status() != NodeStatusView::Running && status@
                    == self.status(),
            },
    {
        match self.status {
            NodeStatus::Running => {
                let mut info = self.node_info.clone();
                info.resources = self.resource_monitor.get_contribution();
                Supervision::Continue(info)
            },
            _ => Supervision::Stop(self.status.clone()),
        }
    }

    /// Stop the node: it is shutting down from now on, unless it has failed.
    /// Work under way is not interrupted.
    pub fn stop(&mut self)
        ensures
            final(self).status() == once_stopped(old(self).status()),
            final(self).settings() == old(self).settings(),
            final(self).info() == old(self).info(),
            final(self).network() == old(self).network(),
            final(self).monitor() == old(self).monitor(),
    {
        match self.status {
            NodeStatus::Error(_) => {},
            _ => {
                self.status = NodeStatus::ShuttingDown;
            },
        }
    }

    /// One sample of the host by the node's monitor.
    pub fn sample(&mut self) -> (contribution: ResourceContribution)
        ensures
            old(self).wf() ==> final(self).wf(),
            final(self).settings() == old(self).settings(),
            final(self).status() == old(self).status(),
            final(self).info() == old(self).info(),
            final(self).network() == old(self).network(),
            contribution == final(self).monitor().latest(),
            contribution == final(self).monitor().sampled(),
            contribution.storage_mb <= old(self).monitor().storage_ceiling(),
    {
        self.resource_monitor.tick()
    }

    /// Hands out the parts of the transport, once.
    pub fn take_transport_parts(&mut self) -> (parts: Option<TransportParts>)
        ensures
            old(self).wf() ==> final(self).wf(),
            parts is Some == old(self).network().holds_parts(),
            parts matches Some(taken) ==> old(self).network().key_pair() == Some(taken.identity),
            !final(self).network().holds_parts(),
            final(self).settings() == old(self).settings(),
            final(self).status() == old(self).status(),
            final(self).info() == old(self).info(),
            final(self).monitor() == old(self).monitor(),
            final(self).network().state() == old(self).network().state(),
            final(self).network().handler() == old(self).network().handler(),
    {
        self.network.take_parts()
    }

    /// What the event loop of the node's protocol layer does about an event.
    ///
    /// A loop that is not active ends at once. An active loop notes that it
    /// has started, lets overlay events pass, and ends when either source is
    /// closed for good, which stops the layer. A queued message goes to the
    /// handler, if one is installed, and draws the reaction that the
    /// dispatch policy owes to it; the status of the node does not matter.
    pub fn on_network_event(&mut self, event: LoopEvent) -> (action: LoopAction)
        ensures
            old(self).wf() ==> final(self).wf(),
            final(self).settings() == old(self).settings(),
            final(self).status() == old(self).status(),
            final(self).info() == old(self).info(),
            final(self).monitor() == old(self).monitor(),
            final(self).network().identity() == old(self).network().identity(),
            final(self).network().handler() == old(self).network().handler(),
            final(self).network().key_pair() == old(self).network().key_pair(),
            !old(self).network().loop_active() ==> action == LoopAction::Terminate && final(self).network().state() == old(self).network().state(),
            old(self).network().loop_active() ==> match event {
                LoopEvent::Started => action == LoopAction::Idle && final(self).network().state()
                    == ProtocolState::Running,
                LoopEvent::Overlay => action == LoopAction::Idle && final(self).network().state()
                    == old(self).network().state(),
                LoopEvent::OverlayClosed | LoopEvent::QueueClosed => action
                    == LoopAction::Terminate && final(self).network().state()
                    == ProtocolState::Stopped,
                LoopEvent::Queued { source, message } => final(self).network().state() == old(self).network().state() && match old(self).network().handler() {
                    None => action == LoopAction::Idle,
                    Some(_) => action matches LoopAction::React(reaction) && reaction@
                        == policy_reaction(source@, message@),
                },
            },
    {
        self.network.run_event_loop(event)
    }

    /// The entry to put into the queue of messages in order to send
    /// `message` to `peer`, unless the queue is gone.
    pub fn send_message(&self, peer: NodeId, message: Message) -> (entry: Result<
        (NodeId, Message),
        NetworkError,
    >)
        ensures
            match entry {
                Ok(queued) => self.network().state() != ProtocolState::Stopped && queued == (
                    peer,
                    message,
                ),
                Err(error) => self.network().state() == ProtocolState::Stopped && error
                    == NetworkError::ChannelClosed,
            },
    {
        self.network.send_message(peer, message)
    }
}

} // verus!
