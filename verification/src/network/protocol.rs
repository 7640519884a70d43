//! The protocol layer of the peer-to-peer network.
//!
//! The layer has an identity, goes through the states of its life, and
//! decides what the event loop does about each event. The transport, the
//! overlay and the queue of messages are driven from outside: they report
//! what happened, and the layer says what follows.

use crate::config::Settings;
use crate::network::handler::{HandlerError, NetworkEventHandler, Reaction};
use crate::network::message::Message;
use crate::types::NodeId;
use libp2p::gossipsub;
use libp2p::identity::Keypair;
use libp2p::noise;
use libp2p::{Multiaddr, PeerId};
use vstd::prelude::*;

verus! {

/// The key pair that is the identity of a peer.
#[verifier::external_type_specification]
#[verifier::external_body]
pub struct ExKeypair(Keypair);

/// The configuration of the handshake that authenticates connections.
#[verifier::external_type_specification]
#[verifier::external_body]
pub struct ExNoiseConfig(noise::Config);

/// The transform that the overlay applies to message data by default.
#[verifier::external_type_specification]
#[verifier::external_body]
pub struct ExIdentityTransform(gossipsub::IdentityTransform);

/// The subscription filter that the overlay uses by default.
#[verifier::external_type_specification]
#[verifier::external_body]
pub struct ExAllowAllSubscriptionFilter(gossipsub::AllowAllSubscriptionFilter);

/// The behaviour of the gossip overlay.
#[verifier::external_type_specification]
#[verifier::external_body]
#[verifier::reject_recursive_types(D)]
#[verifier::reject_recursive_types(F)]
pub struct ExBehaviour<D, F>(gossipsub::Behaviour<D, F>);

/// The binary form of the address that a text spells, if it spells one.
pub uninterp spec fn multiaddr_of(text: Seq<char>) -> Option<Seq<u8>>;

/// The bytes of the peer identifier that belongs to a key pair.
pub uninterp spec fn peer_id_of(identity: Keypair) -> Seq<u8>;

/// `libp2p::identity::Keypair::generate_ed25519`: a fresh key pair, drawn
/// at random, so nothing is claimed of it.
#[verifier::external_body]
fn generate_identity() -> (identity: Keypair) {
    Keypair::generate_ed25519()
}

/// `libp2p::PeerId::from` on the public key of the pair: the bytes of the
/// peer identifier that belongs to the identity. They are computed from the
/// public key and nothing else, so the same key pair always gives the same
/// bytes. The bytes are those of a multihash, which begin with the code of
/// the hash, so there is at least one.
#[verifier::external_body]
fn identity_peer_id(identity: &Keypair) -> (bytes: Vec<u8>)
    ensures
        bytes@ == peer_id_of(*identity),
        bytes@.len() > 0,
{
    PeerId::from(identity.public()).to_bytes()
}

/// `libp2p::noise::Config::new`: the handshake configuration for the
/// identity, or the text of the error with which its set-up failed. It draws
/// a key at random, so nothing is claimed of the result.
#[verifier::external_body]
fn authentication_for(identity: &Keypair) -> (configured: Result<noise::Config, String>) {
    noise::Config::new(identity).map_err(|error| error.to_string())
}

/// `libp2p::gossipsub::Behaviour::new` with signed messages and the default
/// configuration: the overlay behaviour bound to the identity, or the text
/// of the error with which its construction failed.
#[verifier::external_body]
fn overlay_for(identity: &Keypair) -> (built: Result<gossipsub::Behaviour, String>) {
    gossipsub::Behaviour::new(
        gossipsub::MessageAuthenticity::Signed(identity.clone()),
        gossipsub::Config::default(),
    ).map_err(|error| error.to_string())
}

/// `libp2p::Multiaddr::from_str`: the binary form of the address that the
/// text spells, or nothing where the text spells none. The result depends on
/// the text alone.
#[verifier::external_body]
fn parse_multiaddr(text: &str) -> (address: Option<Vec<u8>>)
    ensures
        match address {
            Some(bytes) => multiaddr_of(text@) == Some(bytes@),
            None => multiaddr_of(text@) is None,
        },
{
    match text.parse::<Multiaddr>() {
        Ok(address) => Some(address.to_vec()),
        Err(_) => None,
    }
}

/// The states in the life of the protocol layer, in the order in which it
/// goes through them.
#[derive(Clone, Copy, Debug, PartialEq, Eq, Structural)]
pub enum ProtocolState {
    /// It has an identity; its transport is idle.
    Constructed,
    /// Its transport is bound to the listen address.
    Listening,
    /// Its event loop is active.
    Running,
    /// Its event loop has ended.
    Stopped,
}

/// The step of construction at which the protocol layer failed.
#[derive(Clone, Copy, Debug, PartialEq, Eq, Structural)]
pub enum InitStage {
    /// Setting up the authentication of connections.
    Authentication,
    /// Constructing the gossip overlay.
    Overlay,
}

/// What can go wrong in the protocol layer.
#[derive(Debug, PartialEq, Eq)]
pub enum NetworkError {
    /// The layer could not be constructed.
    ProtocolInit { stage: InitStage, detail: String },
    /// The listen address is invalid or cannot be had.
    Bind { detail: String },
    /// A message was sent after the queue of messages was torn down.
    ChannelClosed,
}

/// What a `NetworkError` holds, as mathematical values.
pub enum NetworkErrorView {
    ProtocolInit { stage: InitStage, detail: Seq<char> },
    Bind { detail: Seq<char> },
    ChannelClosed,
}

impl View for NetworkError {
    type V = NetworkErrorView;

    open spec fn view(&self) -> NetworkErrorView {
        match self {
            NetworkError::ProtocolInit { stage, detail } => NetworkErrorView::ProtocolInit {
                stage: *stage,
                detail: detail@,
            },
            NetworkError::Bind { detail } => NetworkErrorView::Bind { detail: detail@ },
            NetworkError::ChannelClosed => NetworkErrorView::ChannelClosed,
        }
    }
}

impl NetworkErrorView {
    /// The text of the error.
    pub open spec fn text(self) -> Seq<char> {
        match self {
            NetworkErrorView::ProtocolInit { stage: InitStage::Authentication, detail } =>
                "Noise error: "@ + detail,
            NetworkErrorView::ProtocolInit { stage: InitStage::Overlay, detail } =>
                "Gossipsub error: "@ + detail,
            NetworkErrorView::Bind { detail } => "Failed to listen: "@ + detail,
            NetworkErrorView::ChannelClosed => "Failed to send message: channel closed"@,
        }
    }
}

impl NetworkError {
    /// The error as text.
    pub fn to_string(&self) -> (text: String)
        ensures
            text@ == self@.text(),
    {
        match self {
            NetworkError::ProtocolInit { stage, detail } => {
                let prefix = match stage {
                    InitStage::Authentication => "Noise error: ",
                    InitStage::Overlay => "Gossipsub error: ",
                };
                prefix.to_owned().concat(detail.as_str())
            },
            NetworkError::Bind { detail } => "Failed to listen: ".to_owned().concat(detail.as_str()),
            NetworkError::ChannelClosed => "Failed to send message: channel closed".to_owned(),
        }
    }
}

/// What the transport and the overlay are built from: the identity, the
/// authentication set up for it, and the overlay behaviour bound to it.
pub struct TransportParts {
    pub identity: Keypair,
    pub authentication: noise::Config,
    pub overlay: gossipsub::Behaviour,
}

/// An event that reaches the event loop from one of its two sources.
#[derive(Debug, PartialEq, Eq)]
pub enum LoopEvent {
    /// The loop has become active.
    Started,
    /// The overlay or the transport reported something.
    Overlay,
    /// The overlay and the transport have shut down for good.
    OverlayClosed,
    /// The queue handed out a message and the peer it came from.
    Queued { source: NodeId, message: Message },
    /// The queue is closed for good.
    QueueClosed,
}

/// What the event loop does about an event.
#[derive(Debug, PartialEq, Eq)]
pub enum LoopAction {
    /// Nothing more; the loop goes on.
    Idle,
    /// Carry out the handler's reaction; the loop goes on.
    React(Reaction),
    /// Report that the handler failed; the loop goes on.
    ReportFailure(HandlerError),
    /// End the loop.
    Terminate,
}

/// Network manager: the protocol layer of one node.
pub struct NetworkManager<H: NetworkEventHandler> {
    peer_id: NodeId,
    parts: Option<TransportParts>,
    state: ProtocolState,
    handler: Option<H>,
}

/// What the event loop does once the handler has returned: it carries out
/// the reaction, or reports the failure, and goes on either way.
pub fn after_handler(outcome: Result<Reaction, HandlerError>) -> (action: LoopAction)
    ensures
        match outcome {
            Ok(reaction) => action == LoopAction::React(reaction),
            Err(error) => action == LoopAction::ReportFailure(error),
        },
{
    match outcome {
        Ok(reaction) => LoopAction::React(reaction),
        Err(error) => LoopAction::ReportFailure(error),
    }
}

/// The listen address in binary form, or the bind error that an invalid
/// address gives.
pub fn parse_listen_address(listen_address: &str) -> (parsed: Result<Vec<u8>, NetworkError>)
    ensures
        match parsed {
            Ok(bytes) => multiaddr_of(listen_address@) == Some(bytes@),
            Err(error) => multiaddr_of(listen_address@) is None && error@ == (
            NetworkErrorView::Bind { detail: "invalid listen address"@ }),
        },
{
    match parse_multiaddr(listen_address) {
        Some(bytes) => Ok(bytes),
        None => Err(NetworkError::Bind { detail: "invalid listen address".to_owned() }),
    }
}

impl<H: NetworkEventHandler> NetworkManager<H> {
    /// The local identity, as the bytes of its peer identifier.
    pub closed spec fn identity(&self) -> Seq<u8> {
        self.peer_id@
    }

    /// The state of the layer.
    pub closed spec fn state(&self) -> ProtocolState {
        self.state
    }

    /// The handler installed, if one is.
    pub closed spec fn handler(&self) -> Option<H> {
        self.handler
    }

    /// The key pair among the parts of the transport, while the layer holds
    /// the parts.
    pub closed spec fn key_pair(&self) -> Option<Keypair> {
        match self.parts {
            Some(parts) => Some(parts.identity),
            None => None,
        }
    }

    /// Whether the layer still holds the parts of its transport.
    pub open spec fn holds_parts(&self) -> bool {
        self.key_pair() is Some
    }

    /// Whether the event loop is active or about to be.
    pub open spec fn loop_active(&self) -> bool {
        self.state() == ProtocolState::Listening || self.state() == ProtocolState::Running
    }

    /// The layer as it is once everything it is built from is at hand:
    /// constructed, with no handler.
    pub fn constructed(peer_id: Vec<u8>, parts: TransportParts) -> (manager: Self)
        ensures
            manager.identity() == peer_id@,
            manager.key_pair() == Some(parts.identity),
            manager.state() == ProtocolState::Constructed,
            manager.handler() is None,
            manager.holds_parts(),
    {
        NetworkManager {
            peer_id: NodeId(peer_id),
            parts: Some(parts),
            state: ProtocolState::Constructed,
            handler: None,
        }
    }

    /// Create a new network manager: a fresh identity, the authentication
    /// set up for it, and the overlay bound to it. Authentication is set up
    /// first, and where it fails the overlay is not attempted. The identity
    /// of the layer is the peer identifier of the key pair that it holds for
    /// the transport.
    pub fn new(_settings: &Settings) -> (created: Result<Self, NetworkError>)
        ensures
            match created {
                Ok(manager) => {
                    &&& manager.state() == ProtocolState::Constructed
                    &&& manager.handler() is None
                    &&& manager.holds_parts()
                    &&& manager.key_pair() matches Some(key) && manager.identity() == peer_id_of(
                        key,
                    )
                    &&& manager.identity().len() > 0
                },
                Err(error) => error is ProtocolInit,
            },
    {
        let identity = generate_identity();
        let peer_id = identity_peer_id(&identity);
        let authentication = match authentication_for(&identity) {
            Ok(authentication) => authentication,
            Err(detail) => {
                return Err(NetworkError::ProtocolInit { stage: InitStage::Authentication, detail });
            },
        };
        let overlay = match overlay_for(&identity) {
            Ok(overlay) => overlay,
            Err(detail) => {
                return Err(NetworkError::ProtocolInit { stage: InitStage::Overlay, detail });
            },
        };
        Ok(Self::constructed(peer_id, TransportParts { identity, authentication, overlay }))
    }

    /// Set the event handler. A handler installed before is replaced.
    pub fn set_handler(&mut self, handler: H)
        ensures
            final(self).handler() == Some(handler),
            final(self).identity() == old(self).identity(),
            final(self).state() == old(self).state(),
            final(self).key_pair() == old(self).key_pair(),
    {
        self.handler = Some(handler);
    }

    /// Get local peer ID: the same at every call.
    pub fn local_peer_id(&self) -> (id: NodeId)
        ensures
            id@ == self.identity(),
    {
        self.peer_id.clone()
    }

    /// Hands out the parts of the transport, once: afterwards the layer
    /// holds none.
    pub fn take_parts(&mut self) -> (parts: Option<TransportParts>)
        ensures
            parts is Some == old(self).holds_parts(),
            parts matches Some(taken) ==> old(self).key_pair() == Some(taken.identity),
            !final(self).holds_parts(),
            final(self).identity() == old(self).identity(),
            final(self).state() == old(self).state(),
            final(self).handler() == old(self).handler(),
    {
        self.parts.take()
    }

    /// The address that a start is to bind, in binary form. A layer that was
    /// started before, or an address that is no address, gives a bind error.
    pub fn listen_target(&self, listen_address: &str) -> (target: Result<Vec<u8>, NetworkError>)
        ensures
            match target {
                Ok(bytes) => self.state() == ProtocolState::Constructed && multiaddr_of(
                    listen_address@,
                ) == Some(bytes@),
                Err(error) => if self.state() != ProtocolState::Constructed {
                    error@ == (NetworkErrorView::Bind { detail: "already started"@ })
                } else {
                    multiaddr_of(listen_address@) is None && error@ == (NetworkErrorView::Bind {
                        detail: "invalid listen address"@,
                    })
                },
            },
    {
        match self.state {
            ProtocolState::Constructed => parse_listen_address(listen_address),
            _ => Err(NetworkError::Bind { detail: "already started".to_owned() }),
        }
    }

    /// Start the network manager, given what binding the listen address
    /// came to. A constructed layer whose address was bound is listening
    /// from now on; anything else is a bind error and changes nothing.
    pub fn start(&mut self, bound: Result<(), String>) -> (started: Result<(), NetworkError>)
        ensures
            final(self).identity() == old(self).identity(),
            final(self).handler() == old(self).handler(),
            final(self).key_pair() == old(self).key_pair(),
            started is Ok <==> old(self).state() == ProtocolState::Constructed && bound is Ok,
            started is Ok ==> final(self).state() == ProtocolState::Listening,
            started matches Err(error) ==> error is Bind && final(self).state() == old(self).state(),
            old(self).state() == ProtocolState::Constructed ==> (started matches Err(error)
                ==> (bound matches Err(detail) && error@ == (NetworkErrorView::Bind {
                detail: detail@,
            }))),
            old(self).state() != ProtocolState::Constructed ==> (started matches Err(error)
                ==> error@ == (NetworkErrorView::Bind { detail: "already started"@ })),
    {
        match self.state {
            ProtocolState::Constructed => match bound {
                Ok(()) => {
                    self.state = ProtocolState::Listening;
                    Ok(())
                },
                Err(detail) => Err(NetworkError::Bind { detail }),
            },
            _ => Err(NetworkError::Bind { detail: "already started".to_owned() }),
        }
    }

    /// Send a message to a peer: hands back the entry to put into the queue
    /// of messages, unless the event loop has ended and the queue with it.
    /// Delivery is not confirmed.
    pub fn send_message(&self, peer: NodeId, message: Message) -> (entry: Result<
        (NodeId, Message),
        NetworkError,
    >)
        ensures
            match entry {
                Ok(queued) => self.state() != ProtocolState::Stopped && queued == (peer, message),
                Err(error) => self.state() == ProtocolState::Stopped && error
                    == NetworkError::ChannelClosed,
            },
    {
        match self.state {
            ProtocolState::Stopped => Err(NetworkError::ChannelClosed),
            _ => Ok((peer, message)),
        }
    }

    /// Run the event loop for one event.
    ///
    /// A loop that is not active ends at once. An active loop ends when
    /// either source is closed for good, and the layer is stopped from then
    /// on. It notes that it has started, lets overlay events pass, and hands
    /// a queued message to the handler if one is installed; a handler that
    /// fails is reported and does not end the loop.
    pub fn run_event_loop(&mut self, event: LoopEvent) -> (action: LoopAction)
        ensures
            final(self).identity() == old(self).identity(),
            final(self).handler() == old(self).handler(),
            final(self).key_pair() == old(self).key_pair(),
            !old(self).loop_active() ==> action == LoopAction::Terminate && final(self).state()
                == old(self).state(),
            old(self).loop_active() ==> match event {
                LoopEvent::Started => action == LoopAction::Idle && final(self).state()
                    == ProtocolState::Running,
                LoopEvent::Overlay => action == LoopAction::Idle && final(self).state() == old(self).state(),
                LoopEvent::OverlayClosed | LoopEvent::QueueClosed => action
                    == LoopAction::Terminate && final(self).state() == ProtocolState::Stopped,
                LoopEvent::Queued { source, message } => final(self).state() == old(self).state()
                    && match old(self).handler() {
                    None => action == LoopAction::Idle,
                    Some(handler) => match action {
                        LoopAction::React(reaction) => handler.reacts(
                            source@,
                            message@,
                            Ok(reaction@),
                        ),
                        LoopAction::ReportFailure(error) => handler.reacts(
                            source@,
                            message@,
                            Err(error@),
                        ),
                        _ => false,
                    },
                },
            },
    {
        match self.state {
            ProtocolState::Listening | ProtocolState::Running => {},
            _ => {
                return LoopAction::Terminate;
            },
        }
        match event {
            LoopEvent::Started => {
                self.state = ProtocolState::Running;
                LoopAction::Idle
            },
            LoopEvent::Overlay => LoopAction::Idle,
            LoopEvent::OverlayClosed | LoopEvent::QueueClosed => {
                self.state = ProtocolState::Stopped;
                LoopAction::Terminate
            },
            LoopEvent::Queued { source, message } => match &self.handler {
                None => LoopAction::Idle,
                Some(handler) => after_handler(handler.handle_message(source, message)),
            },
        }
    }
}

} // verus!
