//! Ping: `ping` is answered with `pong`.

use vstd::prelude::*;
use crate::peer_addr::PeerAddr;
use crate::protocol::message::{Message, MessageView, ProtocolMessage, ResponseView, response_view, bad_message, text_is};

verus! {

#[derive(Debug, PartialEq)]
pub struct PingMessage {
    pub message: String,
}

/// The response to a ping with the given text: `ping` is answered with
/// `pong`, `pong` needs no answer, and anything else is a bad message.
pub open spec fn ping_response(message: Seq<char>) -> ResponseView {
    if message == "ping"@ {
        Ok(Some(MessageView::Ping("pong"@)))
    } else if message == "pong"@ {
        Ok(None)
    } else {
        Err(bad_message())
    }
}

impl ProtocolMessage for PingMessage {
    fn start(addr: &PeerAddr) -> (r: Option<Message>)
        ensures
            r matches Some(m) && m@ == MessageView::Ping("ping"@),
    {
        Some(Message::Ping(PingMessage { message: String::from_str("ping") }))
    }

    fn response_for_received(&self) -> (r: Result<Option<Message>, String>)
        ensures
            response_view(r) == ping_response(self.message@),
    {
        if text_is(&self.message, "ping") {
            Ok(Some(Message::Ping(PingMessage { message: String::from_str("pong") })))
        } else if text_is(&self.message, "pong") {
            Ok(None)
        } else {
            Err(String::from_str("Bad message"))
        }
    }
}

} // verus!
