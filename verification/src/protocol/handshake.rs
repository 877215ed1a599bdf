//! The handshake: a peer opens with `helo`, the other side answers `oleh`, and
//! both name protocol version `0.1.0`.

use vstd::prelude::*;
use crate::peer_addr::PeerAddr;
use crate::protocol::message::{Message, MessageView, ProtocolMessage, ResponseView, response_view, bad_message, text_is};

verus! {

#[derive(Debug, PartialEq)]
pub struct HandshakeMessage {
    pub message: String,
    pub version: String,
}

/// The protocol version that this node speaks.
pub open spec fn protocol_version() -> Seq<char> {
    "0.1.0"@
}

/// The response to a handshake with the given text and version: `helo` is
/// answered with `oleh`, `oleh` needs no answer, and anything else (including
/// another version) is a bad message.
pub open spec fn handshake_response(message: Seq<char>, version: Seq<char>) -> ResponseView {
    if message == "helo"@ && version == protocol_version() {
        Ok(Some(MessageView::Handshake("oleh"@, protocol_version())))
    } else if message == "oleh"@ && version == protocol_version() {
        Ok(None)
    } else {
        Err(bad_message())
    }
}

/// A handshake message with the given text, in this node's protocol version.
fn handshake(text: &str) -> (m: HandshakeMessage)
    ensures
        m.message@ == text@,
        m.version@ == protocol_version(),
{
    HandshakeMessage { message: String::from_str(text), version: String::from_str("0.1.0") }
}

impl ProtocolMessage for HandshakeMessage {
    fn start(addr: &PeerAddr) -> (r: Option<Message>)
        ensures
            r matches Some(m) && m@ == MessageView::Handshake("helo"@, protocol_version()),
    {
        Some(Message::Handshake(handshake("helo")))
    }

    fn response_for_received(&self) -> (r: Result<Option<Message>, String>)
        ensures
            response_view(r) == handshake_response(self.message@, self.version@),
    {
        let current_version = text_is(&self.version, "0.1.0");
        if text_is(&self.message, "helo") && current_version {
            Ok(Some(Message::Handshake(handshake("oleh"))))
        } else if text_is(&self.message, "oleh") && current_version {
            Ok(None)
        } else {
            Err(String::from_str("Bad message"))
        }
    }
}

} // verus!
