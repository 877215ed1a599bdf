//! Peer addresses.

use vstd::prelude::*;

verus! {

/// The socket address of a peer, held as plain values: its textual form
/// `ip:port` as a socket address displays itself (IPv6 addresses in brackets,
/// with their scope id after `%` when it is not zero), and the IPv6 flow
/// information, which that text leaves out (0 for IPv4). The text determines
/// the address family, the IP address, the port and the scope id, so two peers
/// are the same socket address exactly when both parts are equal.
#[derive(Clone, Debug, PartialEq, Eq, Hash)]
pub struct PeerAddr {
    text: String,
    flowinfo: u32,
}

impl View for PeerAddr {
    /// The textual form and the flow information.
    type V = (Seq<char>, u32);

    closed spec fn view(&self) -> (Seq<char>, u32) {
        (self.text@, self.flowinfo)
    }
}

impl PeerAddr {
    /// The peer whose address reads `text` and carries no flow information
    /// (every IPv4 address, and IPv6 addresses with a zero flow label).
    pub fn new(text: String) -> (a: PeerAddr)
        ensures
            a@ == (text@, 0u32),
    {
        PeerAddr { text, flowinfo: 0 }
    }

    /// The peer whose address reads `text`, with IPv6 flow information
    /// `flowinfo`.
    pub fn with_flowinfo(text: String, flowinfo: u32) -> (a: PeerAddr)
        ensures
            a@ == (text@, flowinfo),
    {
        PeerAddr { text, flowinfo }
    }

    /// The textual form of the address.
    pub fn to_string(&self) -> (s: String)
        ensures
            s@ == self@.0,
    {
        self.text.clone()
    }

    /// Whether `self` and `other` are the same peer.
    pub fn same_as(&self, other: &PeerAddr) -> (r: bool)
        ensures
            r == (self@ == other@),
    {
        self.text == other.text && self.flowinfo == other.flowinfo
    }
}

} // verus!
