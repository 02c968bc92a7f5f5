//! The address of a remote peer, held as plain values.

use vstd::prelude::*;

verus! {

/// The socket address of a remote KCP peer: an IP address and a port.
///
/// This mirrors the two forms of an internet socket address, IPv4 and IPv6,
/// field for field, so that transports can be written against it.
#[derive(Clone, Copy, Debug, PartialEq, Eq, Hash)]
pub enum PeerAddr {
    /// An IPv4 address given by its four octets, and a port.
    V4 { octets: [u8; 4], port: u16 },
    /// An IPv6 address given by its eight 16-bit segments, a port, the flow
    /// information and the scope identifier.
    V6 { segments: [u16; 8], port: u16, flowinfo: u32, scope_id: u32 },
}

} // verus!
