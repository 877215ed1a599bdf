//! The messages that peers exchange, and the response that each one calls for.

pub mod handshake;
pub mod heartbeat;
pub mod message;
pub mod ping;

pub use handshake::HandshakeMessage;
pub use heartbeat::HeartbeatMessage;
pub use message::{Message, ProtocolMessage};
pub use ping::PingMessage;
