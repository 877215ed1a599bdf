//! Heartbeats: a node tells its peers that it is alive; they need no answer.

use vstd::prelude::*;
use crate::peer_addr::PeerAddr;
use std::time::SystemTime;
use crate::protocol::message::{Message, ProtocolMessage, ResponseView, response_view};

verus! {

#[derive(Debug, PartialEq)]
pub struct HeartbeatMessage {
    pub from: String,
    pub time: SystemTime,
}

impl ProtocolMessage for HeartbeatMessage {
    /// A heartbeat from `addr`, in its textual form, stamped with the current time.
    fn start(addr: &PeerAddr) -> (r: Option<Message>)
        ensures
            r matches Some(Message::Heartbeat(h)) && h.from@ == addr@.0,
    {
        Some(Message::Heartbeat(HeartbeatMessage { from: addr.to_string(), time: SystemTime::now() }))
    }

    fn response_for_received(&self) -> (r: Result<Option<Message>, String>)
        ensures
            response_view(r) == Ok::<Option<crate::protocol::message::MessageView>, Seq<char>>(None),
    {
        Ok(None)
    }
}

} // verus!
