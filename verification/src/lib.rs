//! Braidpool node library: configuration, peer protocol messages, connection
//! bookkeeping and the UHPO payout transactions.

pub mod cli;
pub mod config;
pub mod connection;
pub mod connection_manager;
pub mod node_config;
pub mod peer_addr;
pub mod protocol;
pub mod uhpo;
