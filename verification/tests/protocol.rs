use braidpool::peer_addr::PeerAddr;
use braidpool::protocol::{HandshakeMessage, HeartbeatMessage, Message, PingMessage, ProtocolMessage};
use std::time::SystemTime;

fn addr(text: &str) -> PeerAddr {
    PeerAddr::new(text.to_string())
}

fn handshake(message: &str, version: &str) -> Message {
    Message::Handshake(HandshakeMessage { message: message.to_string(), version: version.to_string() })
}

#[test]
fn handshake_it_matches_start_message_for_handshake() {
    let addr = addr("127.0.0.1:6680");
    let start_message = HandshakeMessage::start(&addr).unwrap();
    assert_eq!(
        start_message,
        Message::Handshake(HandshakeMessage {
            message: String::from("helo"),
            version: String::from("0.1.0"),
        })
    );
}

#[test]
fn handshake_it_matches_response_message_for_correct_handshake_start() {
    let addr = addr("127.0.0.1:6680");
    let start_message = HandshakeMessage::start(&addr).unwrap();
    let response = start_message.response_for_received().unwrap();
    assert_eq!(
        response,
        Some(Message::Handshake(HandshakeMessage {
            message: String::from("oleh"),
            version: String::from("0.1.0"),
        }))
    );
}

#[test]
fn it_matches_error_response_message_for_incorrect_handshake_start() {
    let start_message = Message::Handshake(HandshakeMessage {
        message: String::from("bad-message"),
        version: String::from("0.1.0"),
    });

    let response = start_message.response_for_received();
    assert_eq!(response, Err("Bad message".to_string()));
}

#[test]
fn it_matches_error_response_message_for_incorrect_handshake_version() {
    let start_message = Message::Handshake(HandshakeMessage {
        message: String::from("helo"),
        version: String::from("0.2.0"),
    });

    let response = start_message.response_for_received();
    assert_eq!(response, Err("Bad message".to_string()));
}

#[test]
fn heartbeat_it_matches_start_message_for_handshake() {
    let addr = addr("127.0.0.1:6680");
    if let Some(Message::Heartbeat(start_message)) = HeartbeatMessage::start(&addr) {
        assert_eq!(start_message.from, String::from("127.0.0.1:6680"))
    } else {
        panic!("a heartbeat starts with a heartbeat message");
    }
}

#[test]
fn heartbeat_it_matches_response_message_for_correct_handshake_start() {
    let addr = addr("127.0.0.1:6680");
    let start_message = HeartbeatMessage::start(&addr).unwrap();
    let response = start_message.response_for_received().unwrap();
    assert_eq!(response, None);
}

#[test]
fn it_matches_start_message_for_ping() {
    let addr = addr("127.0.0.1:6680");
    let start_message = PingMessage::start(&addr).unwrap();
    assert_eq!(
        start_message,
        Message::Ping(PingMessage {
            message: String::from("ping")
        })
    );
}

// The message as decoded from its encoding is the message that was encoded.
#[test]
fn it_invoked_received_message_after_deseralization() {
    let msg = Message::Ping(PingMessage { message: String::from("ping") });

    let response = msg.response_for_received().unwrap();
    assert_eq!(
        response,
        Some(Message::Ping(PingMessage {
            message: String::from("pong")
        }))
    );
}

#[test]
fn handshake_reply_needs_no_reply() {
    let reply = handshake("helo", "0.1.0").response_for_received().unwrap().unwrap();
    assert_eq!(reply.response_for_received(), Ok(None));
    assert_eq!(handshake("oleh", "0.1.0").response_for_received(), Ok(None));
}

#[test]
fn ping_reply_needs_no_reply() {
    let reply = Message::Ping(PingMessage { message: "ping".to_string() })
        .response_for_received()
        .unwrap()
        .unwrap();
    assert_eq!(reply, Message::Ping(PingMessage { message: "pong".to_string() }));
    assert_eq!(reply.response_for_received(), Ok(None));
}

#[test]
fn unknown_messages_are_bad_messages() {
    assert_eq!(
        Message::Ping(PingMessage { message: "PING".to_string() }).response_for_received(),
        Err("Bad message".to_string())
    );
    assert_eq!(handshake("oleh", "0.2.0").response_for_received(), Err("Bad message".to_string()));
    assert_eq!(handshake("", "").response_for_received(), Err("Bad message".to_string()));
}

#[test]
fn heartbeats_need_no_reply() {
    let heartbeat = Message::Heartbeat(HeartbeatMessage {
        from: "[::1]:6680".to_string(),
        time: SystemTime::UNIX_EPOCH,
    });
    assert_eq!(heartbeat.response_for_received(), Ok(None));
}
