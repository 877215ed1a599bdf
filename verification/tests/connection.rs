use braidpool::connection::{
    close_connection, handle_received_step, heartbeat_step, message_handler_step, open_connection,
    read_loop_step, HandleAction, HandleEvent, HandlerAction, HandlerEvent, HeartbeatAction,
    HeartbeatEvent, ReadAction, ReadEvent,
};
use braidpool::connection_manager::{ConnectionManager, Metadata};
use braidpool::peer_addr::PeerAddr;
use braidpool::protocol::{HandshakeMessage, Message, PingMessage};
use std::time::SystemTime;

#[test]
fn read_loop_forwards_frames_and_goes_on() {
    assert_eq!(read_loop_step(ReadEvent::FrameRead), ReadAction::Forward);
    assert_eq!(read_loop_step(ReadEvent::Forwarded), ReadAction::Continue);
}

#[test]
fn read_loop_stops_when_the_peer_floods_the_channel() {
    assert_eq!(
        read_loop_step(ReadEvent::ChannelFull),
        ReadAction::Stop("Sender flooding channel".to_string())
    );
}

#[test]
fn read_loop_stops_on_closed_channel_failed_read_and_end_of_stream() {
    assert_eq!(
        read_loop_step(ReadEvent::ChannelClosed),
        ReadAction::Stop("Receiver closed for channel".to_string())
    );
    assert_eq!(
        read_loop_step(ReadEvent::ReadFailed),
        ReadAction::Stop("Message receive: peer closed connection".to_string())
    );
    assert_eq!(
        read_loop_step(ReadEvent::StreamEnded),
        ReadAction::Stop("Receive: peer closed connection".to_string())
    );
}

#[test]
fn handling_a_helo_encodes_and_sends_an_oleh() {
    let helo = Message::Handshake(HandshakeMessage {
        message: "helo".to_string(),
        version: "0.1.0".to_string(),
    });
    match handle_received_step(HandleEvent::Decoded(Some(helo))) {
        HandleAction::Encode(reply) => assert_eq!(
            reply,
            Message::Handshake(HandshakeMessage {
                message: "oleh".to_string(),
                version: "0.1.0".to_string()
            })
        ),
        other => panic!("unexpected {:?}", other),
    }
    match handle_received_step(HandleEvent::Encoded(Some(vec![1, 2, 3]))) {
        HandleAction::Send(bytes) => assert_eq!(bytes, vec![1, 2, 3]),
        other => panic!("unexpected {:?}", other),
    }
    assert!(matches!(handle_received_step(HandleEvent::Sent(true)), HandleAction::Done(Ok(()))));
}

#[test]
fn handling_a_pong_needs_no_reply() {
    let pong = Message::Ping(PingMessage { message: "pong".to_string() });
    assert!(matches!(
        handle_received_step(HandleEvent::Decoded(Some(pong))),
        HandleAction::Done(Ok(()))
    ));
}

fn done_with_error(action: HandleAction) -> String {
    match action {
        HandleAction::Done(Err(e)) => e,
        other => panic!("unexpected {:?}", other),
    }
}

#[test]
fn handling_fails_on_undecodable_bad_unencodable_and_unsent_messages() {
    assert_eq!(done_with_error(handle_received_step(HandleEvent::Decoded(None))), "Error parsing message");
    let bad = Message::Ping(PingMessage { message: "hello world".to_string() });
    assert_eq!(
        done_with_error(handle_received_step(HandleEvent::Decoded(Some(bad)))),
        "Error constructing response: Closing peer connection"
    );
    assert_eq!(
        done_with_error(handle_received_step(HandleEvent::Encoded(None))),
        "Error serializing: Closing peer connection"
    );
    assert_eq!(
        done_with_error(handle_received_step(HandleEvent::Sent(false))),
        "Send failed: Closing peer connection"
    );
}

#[test]
fn message_handler_notifies_after_each_handled_message_and_stops_on_failures() {
    assert_eq!(message_handler_step(HandlerEvent::Handled(Ok(()))), HandlerAction::NotifyAndContinue);
    assert_eq!(
        message_handler_step(HandlerEvent::Handled(Err("Error parsing message".to_string()))),
        HandlerAction::Stop("Error parsing message".to_string())
    );
    assert_eq!(message_handler_step(HandlerEvent::BroadcastSent(true)), HandlerAction::Continue);
    assert_eq!(
        message_handler_step(HandlerEvent::BroadcastSent(false)),
        HandlerAction::Stop("Send failed: Closing peer connection".to_string())
    );
}

#[test]
fn connections_open_with_a_helo_until_the_manager_is_full() {
    let mut manager = ConnectionManager::new(1);
    let metadata = Metadata { created_at: SystemTime::now() };
    let first = PeerAddr::new("127.0.0.1:8080".to_string());
    let second = PeerAddr::new("127.0.0.1:8081".to_string());
    let greeting = open_connection(&mut manager, first.clone(), metadata);
    assert_eq!(
        greeting,
        Some(Message::Handshake(HandshakeMessage {
            message: "helo".to_string(),
            version: "0.1.0".to_string()
        }))
    );
    assert_eq!(manager.num_connections(), 1);
    assert_eq!(open_connection(&mut manager, second.clone(), metadata), None);
    assert!(manager.get(&second).is_none());
    close_connection(&mut manager, &first);
    assert_eq!(manager.num_connections(), 0);
    assert!(open_connection(&mut manager, second, metadata).is_some());
}

#[test]
fn heartbeats_go_out_only_while_peers_are_connected() {
    assert_eq!(heartbeat_step(HeartbeatEvent::Tick, 1), HeartbeatAction::Broadcast);
    assert_eq!(heartbeat_step(HeartbeatEvent::Tick, 0), HeartbeatAction::Skip);
    assert_eq!(heartbeat_step(HeartbeatEvent::Notified, 0), HeartbeatAction::ResetInterval);
    assert_eq!(heartbeat_step(HeartbeatEvent::Notified, 5), HeartbeatAction::ResetInterval);
}

#[test]
fn an_unparsable_message_ends_the_handler_with_the_parsing_error() {
    let handled = match handle_received_step(HandleEvent::Decoded(None)) {
        HandleAction::Done(outcome) => outcome,
        other => panic!("unexpected action {:?}", other),
    };
    assert_eq!(
        message_handler_step(HandlerEvent::Handled(handled)),
        HandlerAction::Stop("Error parsing message".to_string())
    );
}
