use paraloom::network::handler::{NetworkEventHandler, Reaction};
use paraloom::network::protocol::{LoopAction, LoopEvent, NetworkError, NetworkManager};
use paraloom::network::Message;
use paraloom::node::{parse_node_type, Node, Supervision, SUPERVISION_INTERVAL_SECS};
use paraloom::types::{NodeId, NodeStatus, NodeType};
use paraloom::Settings;

fn node() -> Node {
    Node::new(Settings::development()).expect("a node")
}

fn node_listening_on(address: &str) -> Node {
    let mut settings = Settings::development();
    settings.network.listen_address = address.to_string();
    Node::new(settings).expect("a node")
}

#[test]
fn node_type_names() {
    assert_eq!(parse_node_type("ResourceProvider"), NodeType::ResourceProvider);
    assert_eq!(parse_node_type("Coordinator"), NodeType::Coordinator);
    assert_eq!(parse_node_type("Bridge"), NodeType::Bridge);
    assert_eq!(parse_node_type("bridge"), NodeType::ResourceProvider);
    assert_eq!(parse_node_type(""), NodeType::ResourceProvider);
    assert_eq!(parse_node_type("Validator"), NodeType::ResourceProvider);
}

#[test]
fn a_new_node_is_starting_and_advertises_itself() {
    let node = node();
    assert_eq!(node.get_status(), NodeStatus::Starting);
    let info = node.get_info();
    assert_eq!(info.node_type, NodeType::ResourceProvider);
    assert_eq!(info.address, "/ip4/127.0.0.1/tcp/0");
    assert!(!info.id.0.is_empty());
    assert_eq!(info.resources, node.get_contribution());
    assert_eq!(info.resources.memory_mb, 0);
    assert_eq!(info.resources.storage_mb, 0);
    assert_eq!(info.resources.bandwidth_kbps, 0);
    assert!(info.resources.cpu_cores > 0);
}

#[test]
fn a_node_is_put_together_from_its_settings_and_its_layer() {
    let mut settings = Settings::development();
    settings.node.node_type = "Bridge".to_string();
    settings.network.listen_address = "/ip4/10.0.0.7/tcp/4001".to_string();
    let layer = NetworkManager::new(&settings).expect("a protocol layer");
    let id = layer.local_peer_id();
    let node = Node::assembled(settings, layer);
    assert_eq!(node.get_status(), NodeStatus::Starting);
    let info = node.get_info();
    assert_eq!(info.id, id);
    assert_eq!(info.node_type, NodeType::Bridge);
    assert_eq!(info.address, "/ip4/10.0.0.7/tcp/4001");
    assert_eq!(info.resources, node.get_contribution());
    assert_eq!(info.resources.memory_mb, 0);
    assert_eq!(info.resources.storage_mb, 0);
    assert_eq!(info.resources.bandwidth_kbps, 0);
}

#[test]
fn a_node_advertises_the_peer_id_of_the_key_pair_it_holds() {
    let mut node = node();
    let advertised = node.get_info().id;
    let parts = node.take_transport_parts().expect("the parts");
    assert_eq!(parts.identity.public().to_peer_id().to_bytes(), advertised.0);
    assert_eq!(node.get_info().id, advertised);
}

#[test]
fn a_node_advertises_the_type_of_its_settings() {
    let mut settings = Settings::development();
    settings.node.node_type = "Coordinator".to_string();
    assert_eq!(Node::new(settings).unwrap().get_info().node_type, NodeType::Coordinator);
}

#[test]
fn a_run_makes_a_starting_node_run() {
    let mut node = node();
    assert_eq!(node.run(), Ok(vec![4, 127, 0, 0, 1, 6, 0, 0]));
    assert_eq!(node.get_status(), NodeStatus::Starting);
    assert_eq!(node.bound(Ok(())), Ok(()));
    assert_eq!(node.get_status(), NodeStatus::Running);
    match node.supervise() {
        Supervision::Continue(info) => {
            assert_eq!(info.id, node.get_info().id);
            assert_eq!(info.resources, node.get_contribution());
        }
        Supervision::Stop(status) => panic!("stopped with {:?}", status),
    }
}

#[test]
fn supervision_advertises_the_latest_sample() {
    let mut node = node();
    node.run().unwrap();
    node.bound(Ok(())).unwrap();
    let sampled = node.sample();
    assert_eq!(sampled.bandwidth_kbps, 10000);
    assert!(sampled.storage_mb <= 10240);
    match node.supervise() {
        Supervision::Continue(info) => assert_eq!(info.resources, sampled),
        Supervision::Stop(status) => panic!("stopped with {:?}", status),
    }
    assert_eq!(node.get_info().resources.bandwidth_kbps, 0);
}

#[test]
fn an_invalid_listen_address_fails_the_node() {
    let mut node = node_listening_on("127.0.0.1:4001");
    assert_eq!(node.run(), Err(NetworkError::Bind { detail: "invalid listen address".to_string() }));
    let failed = NodeStatus::Error("Failed to listen: invalid listen address".to_string());
    assert_eq!(node.get_status(), failed);
    assert_eq!(node.supervise(), Supervision::Stop(failed));
}

#[test]
fn an_address_that_cannot_be_bound_fails_the_node() {
    let mut node = node();
    node.run().unwrap();
    assert_eq!(
        node.bound(Err("address in use".to_string())),
        Err(NetworkError::Bind { detail: "address in use".to_string() })
    );
    assert_eq!(node.get_status(), NodeStatus::Error("Failed to listen: address in use".to_string()));
}

#[test]
fn the_error_status_is_final() {
    let mut node = node();
    node.run().unwrap();
    node.bound(Err("first".to_string())).unwrap_err();
    let failed = NodeStatus::Error("Failed to listen: first".to_string());
    node.stop();
    assert_eq!(node.get_status(), failed);
    node.bound(Ok(())).unwrap();
    assert_eq!(node.get_status(), failed);
    node.bound(Ok(())).unwrap_err();
    assert_eq!(node.get_status(), failed);
}

#[test]
fn stop_ends_the_supervision() {
    let mut node = node();
    node.run().unwrap();
    node.bound(Ok(())).unwrap();
    node.stop();
    assert_eq!(node.get_status(), NodeStatus::ShuttingDown);
    assert_eq!(node.supervise(), Supervision::Stop(NodeStatus::ShuttingDown));
    node.stop();
    assert_eq!(node.get_status(), NodeStatus::ShuttingDown);
}

#[test]
fn a_node_stopped_before_its_run_does_not_run() {
    let mut node = node();
    node.stop();
    node.run().unwrap();
    node.bound(Ok(())).unwrap();
    assert_eq!(node.get_status(), NodeStatus::ShuttingDown);
    assert_eq!(node.supervise(), Supervision::Stop(NodeStatus::ShuttingDown));
}

#[test]
fn a_node_that_is_not_running_is_not_supervised() {
    assert_eq!(node().supervise(), Supervision::Stop(NodeStatus::Starting));
    assert_eq!(SUPERVISION_INTERVAL_SECS, 30);
}

#[test]
fn a_running_node_answers_a_ping_and_nothing_else() {
    let mut node = node();
    node.run().unwrap();
    node.bound(Ok(())).unwrap();
    assert_eq!(node.on_network_event(LoopEvent::Started), LoopAction::Idle);
    let peer = NodeId(vec![7, 7, 7]);
    let ping = LoopEvent::Queued { source: peer.clone(), message: Message::Ping };
    let action = node.on_network_event(ping);
    assert_eq!(action, LoopAction::React(Reaction::Reply { to: peer.clone(), message: Message::Pong }));
    let pong = LoopEvent::Queued { source: peer.clone(), message: Message::Pong };
    match node.on_network_event(pong) {
        LoopAction::React(reaction) => assert_eq!(reaction.reply(), None),
        other => panic!("unexpected {:?}", other),
    }
    assert_eq!(node.handle_message(peer.clone(), Message::Ping), Ok(Reaction::Reply { to: peer, message: Message::Pong }));
}

#[test]
fn the_nodes_loop_starts_passes_overlay_events_and_ends_on_closure() {
    for closure in [LoopEvent::OverlayClosed, LoopEvent::QueueClosed] {
        let mut node = node();
        assert_eq!(node.on_network_event(LoopEvent::Started), LoopAction::Terminate);
        node.run().unwrap();
        node.bound(Ok(())).unwrap();
        assert_eq!(node.on_network_event(LoopEvent::Started), LoopAction::Idle);
        assert_eq!(node.on_network_event(LoopEvent::Overlay), LoopAction::Idle);
        assert_eq!(node.on_network_event(closure), LoopAction::Terminate);
        assert_eq!(node.on_network_event(LoopEvent::Overlay), LoopAction::Terminate);
        assert_eq!(node.on_network_event(LoopEvent::Started), LoopAction::Terminate);
        assert_eq!(node.get_info().id, node.get_info().id);
    }
}

#[test]
fn a_queued_message_is_passed_over_until_the_handler_is_installed() {
    let mut node = node();
    node.bound(Ok(())).unwrap();
    let ping = LoopEvent::Queued { source: NodeId(vec![3]), message: Message::Ping };
    assert_eq!(node.on_network_event(ping), LoopAction::Idle);
}

#[test]
fn a_reply_after_the_loop_has_ended_finds_the_queue_closed() {
    let mut node = node();
    node.run().unwrap();
    node.bound(Ok(())).unwrap();
    let peer = NodeId(vec![1]);
    assert_eq!(node.send_message(peer.clone(), Message::Pong), Ok((peer.clone(), Message::Pong)));
    assert_eq!(node.on_network_event(LoopEvent::QueueClosed), LoopAction::Terminate);
    assert_eq!(node.send_message(peer, Message::Pong), Err(NetworkError::ChannelClosed));
    assert_eq!(node.get_status(), NodeStatus::Running);
}

#[test]
fn two_development_nodes_do_not_find_each_other_by_themselves() {
    let mut first = node();
    let mut second = node();
    assert_ne!(first.get_info().id, second.get_info().id);
    for node in [&mut first, &mut second] {
        node.run().unwrap();
        node.bound(Ok(())).unwrap();
        assert_eq!(node.on_network_event(LoopEvent::Started), LoopAction::Idle);
        assert_eq!(node.on_network_event(LoopEvent::Overlay), LoopAction::Idle);
    }
    assert!(Settings::development().network.bootstrap_nodes.is_empty());
    let first_id = first.get_info().id;
    match second.supervise() {
        Supervision::Continue(info) => assert_ne!(info.id, first_id),
        Supervision::Stop(status) => panic!("stopped with {:?}", status),
    }
    assert!(first.take_transport_parts().is_some());
    assert!(first.take_transport_parts().is_none());
}
