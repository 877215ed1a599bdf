//! The protocol message envelope and the trait that every message implements.

use vstd::prelude::*;
use crate::peer_addr::PeerAddr;
use std::time::SystemTime;
use crate::protocol::handshake::{HandshakeMessage, handshake_response};
use crate::protocol::heartbeat::HeartbeatMessage;
use crate::protocol::ping::{PingMessage, ping_response};

verus! {

#[verifier::external_type_specification]
#[verifier::external_body]
pub struct ExSystemTime(std::time::SystemTime);

/// `SystemTime::now`: the current time, of which nothing is stated.
pub assume_specification[ std::time::SystemTime::now ]() -> std::time::SystemTime;

#[derive(Debug, PartialEq)]
pub enum Message {
    Ping(PingMessage),
    Handshake(HandshakeMessage),
    Heartbeat(HeartbeatMessage),
}

/// What a message holds.
pub enum MessageView {
    Ping(Seq<char>),
    /// The handshake's message text and protocol version.
    Handshake(Seq<char>, Seq<char>),
    /// The sender and the time the heartbeat was made.
    Heartbeat(Seq<char>, SystemTime),
}

impl View for Message {
    type V = MessageView;

    open spec fn view(&self) -> MessageView {
        match self {
            Message::Ping(m) => MessageView::Ping(m.message@),
            Message::Handshake(m) => MessageView::Handshake(m.message@, m.version@),
            Message::Heartbeat(m) => MessageView::Heartbeat(m.from@, m.time),
        }
    }
}

/// A response as plain values: an error text, or the message to reply with,
/// if any.
pub type ResponseView = Result<Option<MessageView>, Seq<char>>;

pub open spec fn response_view(r: Result<Option<Message>, String>) -> ResponseView {
    match r {
        Ok(Some(m)) => Ok(Some(m@)),
        Ok(None) => Ok(None),
        Err(e) => Err(e@),
    }
}

/// The response that receiving `m` calls for.
pub open spec fn response(m: MessageView) -> ResponseView {
    match m {
        MessageView::Ping(text) => ping_response(text),
        MessageView::Handshake(text, version) => handshake_response(text, version),
        MessageView::Heartbeat(_, _) => Ok(None),
    }
}

/// The text of a bad message's error.
pub open spec fn bad_message() -> Seq<char> {
    "Bad message"@
}

/// Methods for all protocol messages
impl Message {
    /// Generates the response to send for a message received
    pub fn response_for_received(&self) -> (r: Result<Option<Message>, String>)
        ensures
            response_view(r) == response(self@),
    {
        match self {
            Message::Ping(m) => m.response_for_received(),
            Message::Handshake(m) => m.response_for_received(),
            Message::Heartbeat(m) => m.response_for_received(),
        }
    }
}

/// Trait implemented by all protocol messages
pub trait ProtocolMessage: Sized {
    /// The message that opens this exchange with the peer at `addr`.
    fn start(addr: &PeerAddr) -> Option<Message>;

    /// The response to send after receiving this message.
    fn response_for_received(&self) -> Result<Option<Message>, String>;
}

/// Whether `s` holds the text `text`.
pub fn text_is(s: &String, text: &str) -> (r: bool)
    ensures
        r == (s@ == text@),
{
    *s == String::from_str(text)
}

} // verus!

verus! {

/// A reply never calls for a reply of its own: whenever receiving a message
/// calls for a response message, receiving that response calls for none. So
/// no exchange between two nodes goes on for more than one round trip.
pub proof fn replies_need_no_reply(m: MessageView)
    ensures
        response(m) matches Ok(Some(reply)) ==> response(reply) == Ok::<Option<MessageView>, Seq<char>>(None),
{
    reveal_strlit("helo");
    reveal_strlit("oleh");
    reveal_strlit("ping");
    reveal_strlit("pong");
    assert("oleh"@[0] != "helo"@[0]);
    assert("pong"@[1] != "ping"@[1]);
}

/// Every message that is not a well-formed ping, pong, helo or oleh in this
/// node's protocol version, and is not a heartbeat, is refused as a bad message.
pub proof fn unknown_messages_are_refused(m: MessageView)
    ensures
        match m {
            MessageView::Ping(text) => (text != "ping"@ && text != "pong"@) ==> response(m) == Err::<
                Option<MessageView>,
                Seq<char>,
            >(bad_message()),
            MessageView::Handshake(text, version) => ((text != "helo"@ && text != "oleh"@)
                || version != crate::protocol::handshake::protocol_version()) ==> response(m) == Err::<
                Option<MessageView>,
                Seq<char>,
            >(bad_message()),
            MessageView::Heartbeat(_, _) => response(m) == Ok::<Option<MessageView>, Seq<char>>(None),
        },
{
}

} // verus!
