//! A participant node of a peer-to-peer resource-sharing network.

pub mod config;
pub mod network;
pub mod node;
pub mod resource;
pub mod types;
pub mod utils;

pub use config::Settings;
