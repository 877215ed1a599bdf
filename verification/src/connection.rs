//! The decisions of a peer connection. The connection's tasks read frames
//! from the socket, hand them to a bounded channel, answer each message and
//! send heartbeats; at each step they report what happened here and carry
//! out the action returned.

use vstd::prelude::*;
use crate::connection_manager::{ConnectionManager, Metadata};
use crate::peer_addr::PeerAddr;
use crate::protocol::{HandshakeMessage, Message, ProtocolMessage};
use crate::protocol::message::{MessageView, response, response_view};
use crate::protocol::handshake::protocol_version;

verus! {

/// What happened in the read loop: a frame was read from the socket, reading
/// failed, the stream ended, or the last frame read was handed to the
/// channel, found it full, or found it closed.
#[derive(Debug, Clone, Copy, PartialEq, Eq)]
pub enum ReadEvent {
    FrameRead,
    ReadFailed,
    StreamEnded,
    Forwarded,
    ChannelFull,
    ChannelClosed,
}

/// What the read loop does next.
#[derive(Debug, Clone, PartialEq, Eq)]
pub enum ReadAction {
    /// Hand the frame just read to the channel without waiting.
    Forward,
    /// Read the next frame.
    Continue,
    /// Stop reading, with this error.
    Stop(String),
}

/// The read loop's response to `event`: a frame read is forwarded, a frame
/// forwarded lets reading go on, and anything else ends the loop. A full
/// channel means that the peer sends faster than its messages are handled,
/// which ends the connection.
pub fn read_loop_step(event: ReadEvent) -> (action: ReadAction)
    ensures
        match event {
            ReadEvent::FrameRead => action == ReadAction::Forward,
            ReadEvent::Forwarded => action == ReadAction::Continue,
            ReadEvent::ChannelFull => action matches ReadAction::Stop(e) && e@ == "Sender flooding channel"@,
            ReadEvent::ChannelClosed => action matches ReadAction::Stop(e) && e@ == "Receiver closed for channel"@,
            ReadEvent::ReadFailed => action matches ReadAction::Stop(e) && e@
                == "Message receive: peer closed connection"@,
            ReadEvent::StreamEnded => action matches ReadAction::Stop(e) && e@
                == "Receive: peer closed connection"@,
        },
{
    match event {
        ReadEvent::FrameRead => ReadAction::Forward,
        ReadEvent::Forwarded => ReadAction::Continue,
        ReadEvent::ChannelFull => ReadAction::Stop(String::from_str("Sender flooding channel")),
        ReadEvent::ChannelClosed => ReadAction::Stop(String::from_str("Receiver closed for channel")),
        ReadEvent::ReadFailed => ReadAction::Stop(
            String::from_str("Message receive: peer closed connection"),
        ),
        ReadEvent::StreamEnded => ReadAction::Stop(String::from_str("Receive: peer closed connection")),
    }
}

/// What happened while handling one received message: it was decoded (or
/// could not be), its response was encoded (or could not be), or the encoded
/// response was sent (or sending failed).
#[derive(Debug)]
pub enum HandleEvent {
    Decoded(Option<Message>),
    Encoded(Option<Vec<u8>>),
    Sent(bool),
}

/// What handling the message does next.
#[derive(Debug)]
pub enum HandleAction {
    /// Encode this response.
    Encode(Message),
    /// Send these bytes to the peer.
    Send(Vec<u8>),
    /// Handling is over, with this outcome.
    Done(Result<(), String>),
}

/// The step of handling a received message that follows `event`: a decoded
/// message is answered with the response it calls for (nothing when it calls
/// for none), the response is encoded and then sent; a message that cannot be
/// decoded, a bad message, an encoding failure and a send failure each end
/// handling with an error that closes the connection.
pub fn handle_received_step(event: HandleEvent) -> (action: HandleAction)
    ensures
        match event {
            HandleEvent::Decoded(None) => action matches HandleAction::Done(Err(e)) && e@
                == "Error parsing message"@,
            HandleEvent::Decoded(Some(m)) => match response(m@) {
                Ok(Some(reply)) => action matches HandleAction::Encode(r) && r@ == reply,
                Ok(None) => action matches HandleAction::Done(Ok(())),
                Err(_) => action matches HandleAction::Done(Err(e)) && e@
                    == "Error constructing response: Closing peer connection"@,
            },
            HandleEvent::Encoded(None) => action matches HandleAction::Done(Err(e)) && e@
                == "Error serializing: Closing peer connection"@,
            HandleEvent::Encoded(Some(bytes)) => action matches HandleAction::Send(b) && b@ == bytes@,
            HandleEvent::Sent(false) => action matches HandleAction::Done(Err(e)) && e@
                == "Send failed: Closing peer connection"@,
            HandleEvent::Sent(true) => action matches HandleAction::Done(Ok(())),
        },
{
    match event {
        HandleEvent::Decoded(None) => HandleAction::Done(Err(String::from_str("Error parsing message"))),
        HandleEvent::Decoded(Some(message)) => match message.response_for_received() {
            Ok(Some(reply)) => HandleAction::Encode(reply),
            Ok(None) => HandleAction::Done(Ok(())),
            Err(_) => HandleAction::Done(
                Err(String::from_str("Error constructing response: Closing peer connection")),
            ),
        },
        HandleEvent::Encoded(None) => HandleAction::Done(
            Err(String::from_str("Error serializing: Closing peer connection")),
        ),
        HandleEvent::Encoded(Some(bytes)) => HandleAction::Send(bytes),
        HandleEvent::Sent(false) => HandleAction::Done(
            Err(String::from_str("Send failed: Closing peer connection")),
        ),
        HandleEvent::Sent(true) => HandleAction::Done(Ok(())),
    }
}

/// What happened in the message handler loop: a message from the channel was
/// handled, with this outcome, or a message to all peers was sent, or not.
#[derive(Debug)]
pub enum HandlerEvent {
    Handled(Result<(), String>),
    BroadcastSent(bool),
}

/// What the message handler loop does next.
#[derive(Debug, PartialEq, Eq)]
pub enum HandlerAction {
    /// Tell the heartbeat that the peer was heard from, and go on.
    NotifyAndContinue,
    Continue,
    /// Stop, with this error, closing the connection.
    Stop(String),
}

/// The message handler's response to `event`: a handled message lets the
/// heartbeat know the peer was heard from, a failed handling ends the
/// connection with that handling's own error (such as "Error parsing
/// message"), and a failed send to all peers ends it too.
pub fn message_handler_step(event: HandlerEvent) -> (action: HandlerAction)
    ensures
        match event {
            HandlerEvent::Handled(Ok(())) => action == HandlerAction::NotifyAndContinue,
            HandlerEvent::Handled(Err(reason)) => action matches HandlerAction::Stop(e) && e@
                == reason@,
            HandlerEvent::BroadcastSent(true) => action == HandlerAction::Continue,
            HandlerEvent::BroadcastSent(false) => action matches HandlerAction::Stop(e) && e@
                == "Send failed: Closing peer connection"@,
        },
{
    match event {
        HandlerEvent::Handled(Ok(())) => HandlerAction::NotifyAndContinue,
        HandlerEvent::Handled(Err(reason)) => HandlerAction::Stop(reason),
        HandlerEvent::BroadcastSent(true) => HandlerAction::Continue,
        HandlerEvent::BroadcastSent(false) => HandlerAction::Stop(
            String::from_str("Send failed: Closing peer connection"),
        ),
    }
}

/// Registers a new connection to `addr` with the manager and returns the
/// message that opens it, the start of the handshake; when the manager is full
/// the connection is refused: nothing is registered and `None` is returned.
pub fn open_connection(manager: &mut ConnectionManager, addr: PeerAddr, metadata: Metadata) -> (greeting: Option<Message>)
    requires
        old(manager).wf(),
    ensures
        final(manager).wf(),
        final(manager).capacity() == old(manager).capacity(),
        if old(manager)@.len() >= old(manager).capacity() {
            greeting is None && final(manager)@ == old(manager)@
        } else {
            &&& final(manager)@ == old(manager)@.insert(addr@, metadata)
            &&& greeting matches Some(m) && m@ == MessageView::Handshake("helo"@, protocol_version())
        },
{
    let ghost key = addr@;
    let greeting = HandshakeMessage::start(&addr);
    match manager.insert(addr, metadata) {
        Err(_) => None,
        Ok(_) => greeting,
    }
}

/// Forgets the connection to `addr` once it is closed.
pub fn close_connection(manager: &mut ConnectionManager, addr: &PeerAddr)
    requires
        old(manager).wf(),
    ensures
        final(manager).wf(),
        final(manager).capacity() == old(manager).capacity(),
        final(manager)@ == old(manager)@.remove(addr@),
{
    manager.remove(addr);
}

/// What happened to the heartbeat task: its interval elapsed, or it was told
/// that a peer was heard from.
#[derive(Debug, Clone, Copy, PartialEq, Eq)]
pub enum HeartbeatEvent {
    Tick,
    Notified,
}

/// What the heartbeat task does.
#[derive(Debug, Clone, Copy, PartialEq, Eq)]
pub enum HeartbeatAction {
    /// Send the heartbeat to all peers.
    Broadcast,
    /// Nobody to send to: wait for the next tick.
    Skip,
    /// Start the interval anew.
    ResetInterval,
}

/// The heartbeat's response to `event` while `num_connections` peers are
/// connected: heartbeats go out on each tick while any peer is connected, and
/// hearing from a peer puts the next heartbeat off by a whole interval.
pub fn heartbeat_step(event: HeartbeatEvent, num_connections: usize) -> (action: HeartbeatAction)
    ensures
        action == match event {
            HeartbeatEvent::Tick => if num_connections > 0 {
                HeartbeatAction::Broadcast
            } else {
                HeartbeatAction::Skip
            },
            HeartbeatEvent::Notified => HeartbeatAction::ResetInterval,
        },
{
    match event {
        HeartbeatEvent::Tick => if num_connections > 0 {
            HeartbeatAction::Broadcast
        } else {
            HeartbeatAction::Skip
        },
        HeartbeatEvent::Notified => HeartbeatAction::ResetInterval,
    }
}

} // verus!
