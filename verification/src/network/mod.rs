//! Peer-to-peer networking: the messages, and the decisions of the protocol layer.

pub mod codec;
pub mod discovery;
pub mod handler;
pub mod message;
pub mod protocol;

pub use handler::{HandlerError, MessagePolicy, NetworkEventHandler, Reaction, ReactionView};
pub use message::{Message, MessageView};
pub use protocol::NetworkManager;
