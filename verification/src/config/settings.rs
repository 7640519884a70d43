//! Settings for the node.

use vstd::prelude::*;

verus! {

/// Node settings
#[derive(Debug, PartialEq, Eq)]
pub struct Settings {
    /// Network settings
    pub network: NetworkSettings,
    /// Node settings
    pub node: NodeSettings,
    /// Storage settings
    pub storage: StorageSettings,
}

/// Network settings
#[derive(Debug, PartialEq, Eq)]
pub struct NetworkSettings {
    /// Listening address
    pub listen_address: String,
    /// Bootstrap nodes
    pub bootstrap_nodes: Vec<String>,
    /// Enable mDNS discovery
    pub enable_mdns: bool,
}

/// Node settings
#[derive(Debug, PartialEq, Eq)]
pub struct NodeSettings {
    /// Node type
    pub node_type: String,
    /// Maximum CPU usage in percentage
    pub max_cpu_usage: u8,
    /// Maximum memory usage in percentage
    pub max_memory_usage: u8,
    /// Maximum storage usage in MB
    pub max_storage_usage: u64,
}

/// Storage settings
#[derive(Debug, PartialEq, Eq)]
pub struct StorageSettings {
    /// Path to data directory
    pub data_dir: String,
}

/// What the settings hold, as mathematical values.
pub struct SettingsView {
    pub listen_address: Seq<char>,
    pub bootstrap_nodes: Seq<Seq<char>>,
    pub enable_mdns: bool,
    pub node_type: Seq<char>,
    pub max_cpu_usage: u8,
    pub max_memory_usage: u8,
    pub max_storage_usage: u64,
    pub data_dir: Seq<char>,
}

/// The texts of a list of strings.
pub open spec fn texts(strings: Seq<String>) -> Seq<Seq<char>> {
    Seq::new(strings.len(), |i: int| strings[i]@)
}

impl View for Settings {
    type V = SettingsView;

    open spec fn view(&self) -> SettingsView {
        SettingsView {
            listen_address: self.network.listen_address@,
            bootstrap_nodes: texts(self.network.bootstrap_nodes@),
            enable_mdns: self.network.enable_mdns,
            node_type: self.node.node_type@,
            max_cpu_usage: self.node.max_cpu_usage,
            max_memory_usage: self.node.max_memory_usage,
            max_storage_usage: self.node.max_storage_usage,
            data_dir: self.storage.data_dir@,
        }
    }
}

/// The settings that a node started for development uses.
pub open spec fn development_settings() -> SettingsView {
    SettingsView {
        listen_address: "/ip4/127.0.0.1/tcp/0"@,
        bootstrap_nodes: Seq::empty(),
        enable_mdns: true,
        node_type: "ResourceProvider"@,
        max_cpu_usage: 80,
        max_memory_usage: 70,
        max_storage_usage: 10240,
        data_dir: "./data"@,
    }
}

/// A copy of a list of strings.
fn clone_strings(strings: &Vec<String>) -> (copy: Vec<String>)
    ensures
        texts(copy@) == texts(strings@),
{
    let mut copy: Vec<String> = Vec::new();
    let mut i: usize = 0;
    while i < strings.len()
        invariant
            i <= strings@.len(),
            copy@.len() == i,
            forall|j: int| 0 <= j < i ==> copy@[j]@ == strings@[j]@,
        decreases strings@.len() - i,
    {
        copy.push(strings[i].clone());
        i = i + 1;
    }
    assert(texts(copy@) =~= texts(strings@));
    copy
}

impl Clone for Settings {
    fn clone(&self) -> (copy: Self)
        ensures
            copy@ == self@,
    {
        Settings {
            network: NetworkSettings {
                listen_address: self.network.listen_address.clone(),
                bootstrap_nodes: clone_strings(&self.network.bootstrap_nodes),
                enable_mdns: self.network.enable_mdns,
            },
            node: NodeSettings {
                node_type: self.node.node_type.clone(),
                max_cpu_usage: self.node.max_cpu_usage,
                max_memory_usage: self.node.max_memory_usage,
                max_storage_usage: self.node.max_storage_usage,
            },
            storage: StorageSettings { data_dir: self.storage.data_dir.clone() },
        }
    }
}

impl Settings {
    /// Create development settings: the loopback address with a port that
    /// the system picks, no bootstrap peers, local discovery switched on, a
    /// resource provider with ceilings of 80 and 70 percent and of 10240
    /// megabytes, and the data directory `./data`.
    pub fn development() -> (settings: Self)
        ensures
            settings@ == development_settings(),
    {
        let settings = Settings {
            network: NetworkSettings {
                listen_address: "/ip4/127.0.0.1/tcp/0".to_owned(),
                bootstrap_nodes: Vec::new(),
                enable_mdns: true,
            },
            node: NodeSettings {
                node_type: "ResourceProvider".to_owned(),
                max_cpu_usage: 80,
                max_memory_usage: 70,
                max_storage_usage: 10240,
            },
            storage: StorageSettings { data_dir: "./data".to_owned() },
        };
        assert(texts(settings.network.bootstrap_nodes@) =~= Seq::<Seq<char>>::empty());
        settings
    }
}

} // verus!
