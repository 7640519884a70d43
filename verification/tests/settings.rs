use paraloom::config::{NetworkSettings, NodeSettings, Settings, StorageSettings};
use paraloom::network::discovery::PeerDiscovery;
use paraloom::types::{NodeId, NodeInfo, NodeStatus, NodeType, ResourceContribution};

#[test]
fn development_settings() {
    let settings = Settings::development();
    let expected = Settings {
        network: NetworkSettings {
            listen_address: "/ip4/127.0.0.1/tcp/0".to_string(),
            bootstrap_nodes: vec![],
            enable_mdns: true,
        },
        node: NodeSettings {
            node_type: "ResourceProvider".to_string(),
            max_cpu_usage: 80,
            max_memory_usage: 70,
            max_storage_usage: 10240,
        },
        storage: StorageSettings { data_dir: "./data".to_string() },
    };
    assert_eq!(settings, expected);
}

#[test]
fn settings_are_copied_whole() {
    let mut settings = Settings::development();
    settings.network.bootstrap_nodes = vec!["/ip4/10.0.0.1/tcp/4001".to_string(), "/dns4/x/tcp/1".to_string()];
    settings.node.node_type = "Bridge".to_string();
    assert_eq!(settings.clone(), settings);
}

#[test]
fn node_id_renders_as_hex() {
    assert_eq!(NodeId(vec![0x00, 0x24, 0x08, 0xff]).to_string(), "002408ff");
    assert_eq!(NodeId(vec![]).to_string(), "");
    let id = NodeId(vec![1, 2, 3]);
    assert_eq!(id.to_string(), id.clone().to_string());
    assert_eq!(id.clone(), id);
}

#[test]
fn values_are_copied_whole() {
    let info = NodeInfo {
        id: NodeId(vec![1, 2]),
        node_type: NodeType::Coordinator,
        resources: ResourceContribution { cpu_cores: 2, memory_mb: 3, storage_mb: 4, bandwidth_kbps: 5 },
        address: "/ip4/127.0.0.1/tcp/0".to_string(),
    };
    assert_eq!(info.clone(), info);
    for status in [NodeStatus::Starting, NodeStatus::Running, NodeStatus::ShuttingDown, NodeStatus::Error("x".to_string())] {
        assert_eq!(status.clone(), status);
    }
}

#[test]
fn discovery_keeps_no_record() {
    let discovery = PeerDiscovery::new();
    let info = NodeInfo {
        id: NodeId(vec![1]),
        node_type: NodeType::ResourceProvider,
        resources: ResourceContribution { cpu_cores: 1, memory_mb: 0, storage_mb: 0, bandwidth_kbps: 0 },
        address: String::new(),
    };
    discovery.add_peer(NodeId(vec![1]), info);
    assert_eq!(discovery, PeerDiscovery::new());
}
