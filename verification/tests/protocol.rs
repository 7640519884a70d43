use paraloom::network::handler::{HandlerError, MessagePolicy, NetworkEventHandler, Reaction};
use paraloom::network::protocol::{
    parse_listen_address, InitStage, LoopAction, LoopEvent, NetworkError, NetworkManager,
};
use paraloom::network::Message;
use paraloom::types::NodeId;
use paraloom::Settings;

struct Failing;

impl NetworkEventHandler for Failing {
    fn handle_message(&self, _source: NodeId, _message: Message) -> Result<Reaction, HandlerError> {
        Err(HandlerError { reason: "cannot react".to_string() })
    }
}

fn manager() -> NetworkManager<MessagePolicy> {
    NetworkManager::new(&Settings::development()).expect("a protocol layer")
}

fn queued(message: Message) -> LoopEvent {
    LoopEvent::Queued { source: NodeId(vec![5, 5]), message }
}

#[test]
fn local_peer_id_is_stable_and_fresh() {
    let first = manager();
    let second = manager();
    assert_eq!(first.local_peer_id(), first.local_peer_id());
    assert_ne!(first.local_peer_id(), second.local_peer_id());
    assert!(!first.local_peer_id().0.is_empty());
    assert!(!second.local_peer_id().0.is_empty());
}

#[test]
fn local_peer_id_stays_as_the_layer_moves_on() {
    let mut manager = manager();
    let id = manager.local_peer_id();
    manager.set_handler(MessagePolicy);
    assert_eq!(manager.local_peer_id(), id);
    manager.start(Ok(())).unwrap();
    assert_eq!(manager.local_peer_id(), id);
    manager.send_message(NodeId(vec![1]), Message::Ping).unwrap();
    manager.run_event_loop(LoopEvent::QueueClosed);
    assert_eq!(manager.local_peer_id(), id);
}

#[test]
fn listen_address_is_parsed_into_its_binary_form() {
    assert_eq!(parse_listen_address("/ip4/127.0.0.1/tcp/0"), Ok(vec![4, 127, 0, 0, 1, 6, 0, 0]));
    assert_eq!(parse_listen_address("/ip4/10.1.2.3/tcp/4001"), Ok(vec![4, 10, 1, 2, 3, 6, 0x0f, 0xa1]));
    assert_eq!(parse_listen_address(""), Ok(vec![]));
}

#[test]
fn invalid_listen_address_is_a_bind_error() {
    for text in ["127.0.0.1:4001", "ip4/127.0.0.1", "/ip4/999.0.0.1/tcp/0", "/ip4/127.0.0.1/tcp", "/nothing/1"] {
        assert_eq!(
            parse_listen_address(text),
            Err(NetworkError::Bind { detail: "invalid listen address".to_string() })
        );
    }
}

#[test]
fn start_of_a_constructed_layer() {
    let mut manager = manager();
    assert_eq!(manager.listen_target("/ip4/127.0.0.1/tcp/0"), Ok(vec![4, 127, 0, 0, 1, 6, 0, 0]));
    assert_eq!(manager.start(Ok(())), Ok(()));
    assert_eq!(manager.run_event_loop(LoopEvent::Started), LoopAction::Idle);
    assert_eq!(manager.run_event_loop(LoopEvent::Overlay), LoopAction::Idle);
}

#[test]
fn address_in_use_is_a_bind_error_and_changes_nothing() {
    let mut manager = manager();
    assert_eq!(
        manager.start(Err("address in use".to_string())),
        Err(NetworkError::Bind { detail: "address in use".to_string() })
    );
    assert_eq!(manager.run_event_loop(LoopEvent::Started), LoopAction::Terminate);
    assert_eq!(manager.start(Ok(())), Ok(()));
}

#[test]
fn a_layer_is_started_once() {
    let mut manager = manager();
    assert_eq!(manager.start(Ok(())), Ok(()));
    assert_eq!(manager.start(Ok(())), Err(NetworkError::Bind { detail: "already started".to_string() }));
    assert_eq!(
        manager.listen_target("/ip4/127.0.0.1/tcp/0"),
        Err(NetworkError::Bind { detail: "already started".to_string() })
    );
}

#[test]
fn a_loop_that_is_not_active_ends_at_once() {
    let mut manager = manager();
    manager.set_handler(MessagePolicy);
    assert_eq!(manager.run_event_loop(queued(Message::Ping)), LoopAction::Terminate);
}

#[test]
fn queued_message_without_handler_is_passed_over() {
    let mut manager = manager();
    manager.start(Ok(())).unwrap();
    assert_eq!(manager.run_event_loop(queued(Message::Ping)), LoopAction::Idle);
}

#[test]
fn queued_message_goes_to_the_handler() {
    let mut manager = manager();
    manager.set_handler(MessagePolicy);
    manager.start(Ok(())).unwrap();
    manager.run_event_loop(LoopEvent::Started);
    assert_eq!(
        manager.run_event_loop(queued(Message::Ping)),
        LoopAction::React(Reaction::Reply { to: NodeId(vec![5, 5]), message: Message::Pong })
    );
    assert_eq!(
        manager.run_event_loop(queued(Message::Pong)),
        LoopAction::React(Reaction::Liveness { peer: NodeId(vec![5, 5]) })
    );
}

#[test]
fn a_failing_handler_does_not_end_the_loop() {
    let mut manager: NetworkManager<Failing> = NetworkManager::new(&Settings::development()).unwrap();
    manager.set_handler(Failing);
    manager.start(Ok(())).unwrap();
    assert_eq!(
        manager.run_event_loop(queued(Message::Ping)),
        LoopAction::ReportFailure(HandlerError { reason: "cannot react".to_string() })
    );
    assert_eq!(manager.run_event_loop(LoopEvent::Overlay), LoopAction::Idle);
}

#[test]
fn either_closure_ends_the_loop_for_good() {
    for closure in [LoopEvent::OverlayClosed, LoopEvent::QueueClosed] {
        let mut manager = manager();
        manager.set_handler(MessagePolicy);
        manager.start(Ok(())).unwrap();
        assert_eq!(manager.run_event_loop(closure), LoopAction::Terminate);
        assert_eq!(manager.run_event_loop(LoopEvent::Overlay), LoopAction::Terminate);
        assert_eq!(manager.run_event_loop(queued(Message::Ping)), LoopAction::Terminate);
        assert_eq!(manager.send_message(NodeId(vec![1]), Message::Ping), Err(NetworkError::ChannelClosed));
    }
}

#[test]
fn a_message_is_queued_while_the_queue_stands() {
    let mut manager = manager();
    assert_eq!(manager.send_message(NodeId(vec![1]), Message::Ping), Ok((NodeId(vec![1]), Message::Ping)));
    manager.start(Ok(())).unwrap();
    assert_eq!(manager.send_message(NodeId(vec![2]), Message::Pong), Ok((NodeId(vec![2]), Message::Pong)));
}

#[test]
fn the_parts_of_the_transport_are_handed_out_once() {
    let mut manager = manager();
    let parts = manager.take_parts().expect("the parts");
    assert_eq!(parts.identity.public().to_peer_id().to_bytes(), manager.local_peer_id().0);
    assert!(manager.take_parts().is_none());
}

#[test]
fn errors_as_text() {
    let noise = NetworkError::ProtocolInit { stage: InitStage::Authentication, detail: "bad key".to_string() };
    assert_eq!(noise.to_string(), "Noise error: bad key");
    let gossip = NetworkError::ProtocolInit { stage: InitStage::Overlay, detail: "bad mode".to_string() };
    assert_eq!(gossip.to_string(), "Gossipsub error: bad mode");
    assert_eq!(NetworkError::Bind { detail: "in use".to_string() }.to_string(), "Failed to listen: in use");
    assert_eq!(NetworkError::ChannelClosed.to_string(), "Failed to send message: channel closed");
}
