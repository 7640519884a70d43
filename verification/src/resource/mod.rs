//! What the host can offer, and how much of it the node contributes.

pub mod gpu;
pub mod monitor;

pub use monitor::ResourceMonitor;
