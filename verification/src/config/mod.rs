//! Configuration of a node.

pub mod settings;

pub use settings::{NetworkSettings, NodeSettings, Settings, SettingsView, StorageSettings};
