//! Transport abstraction for KCP packet I/O.
//!
//! [`KcpTransport`] decouples the KCP protocol engine from the network
//! transport underneath it. Users implement it to run KCP over other
//! transports, to encrypt or decrypt packets on their way, to filter them,
//! or to apply their own congestion or QoS policies.
//!
//! The default UDP transport settles the outcome of each non-blocking send
//! with [`resolve_send`]: a send that would block, or that meets a
//! connection reset from the peer, counts as sent, since KCP retransmits
//! lost packets itself.

use vstd::prelude::*;
use vstd::slice::slice_to_vec;

use crate::tokio_rt::addr::PeerAddr;

verus! {

/// Declares `std::io::Error`, the error that a transport's send reports, so
/// that it can stand in signatures. Nothing is known of its contents.
#[verifier::external_type_specification]
#[verifier::external_body]
pub struct ExIoError(std::io::Error);

/// Trait for custom KCP transport implementations.
///
/// An implementor provides the packet I/O of a KCP session, in three parts:
///
/// 1. the transmission itself ([`try_send`](KcpTransport::try_send)), a
///    synchronous send made from KCP's output callback, which must not block;
/// 2. the outgoing transformation
///    ([`process_outgoing`](KcpTransport::process_outgoing)), applied to the
///    bytes KCP produced just before they are sent;
/// 3. the incoming transformation
///    ([`process_incoming`](KcpTransport::process_incoming)), applied to the
///    bytes received from the wire before KCP reads them; `None` drops the
///    packet silently.
///
/// Both transformations default to the identity.
pub trait KcpTransport: Send + Sync + 'static {
    /// Synchronously sends a raw KCP packet (already passed through
    /// [`process_outgoing`](KcpTransport::process_outgoing)) to `addr`.
    ///
    /// Returns the number of bytes sent, or an I/O error. Non-fatal errors
    /// (such as a send that would block) should be reported as success,
    /// since KCP retransmits on its own.
    fn try_send(&self, data: &[u8], addr: PeerAddr) -> std::io::Result<usize>;

    /// Transforms outgoing bytes before transmission (KCP to wire). The
    /// returned bytes are what is actually sent.
    ///
    /// The default returns the bytes unchanged.
    fn process_outgoing(&self, data: &[u8], addr: PeerAddr) -> (out: Vec<u8>)
        default_ensures
            out@ == data@,
            out@ == outgoing_identity(data@),
    {
        slice_to_vec(data)
    }

    /// Transforms incoming bytes before they are fed to KCP (wire to KCP).
    /// `None` drops the packet silently.
    ///
    /// The default returns the bytes unchanged.
    fn process_incoming(&self, data: &[u8], addr: PeerAddr) -> (out: Option<Vec<u8>>)
        default_ensures
            out is Some,
            out matches Some(v) ==> v@ == data@,
            out matches Some(v) ==> Some(v@) == incoming_identity(data@),
    {
        Some(slice_to_vec(data))
    }
}

/// What the default outgoing transformation makes of `data`: `data` itself.
pub open spec fn outgoing_identity(data: Seq<u8>) -> Seq<u8> {
    data
}

/// What the default incoming transformation makes of `data`: `data` itself,
/// never dropped.
pub open spec fn incoming_identity(data: Seq<u8>) -> Option<Seq<u8>> {
    Some(data)
}

/// The default outgoing transformation is the identity: for every byte
/// sequence, what it sends is exactly that sequence.
pub proof fn lemma_default_outgoing_keeps_bytes(data: Seq<u8>)
    ensures
        outgoing_identity(data) == data,
        outgoing_identity(data).len() == data.len(),
        forall|i: int| 0 <= i < data.len() ==> #[trigger] outgoing_identity(data)[i] == data[i],
{
}

/// The default incoming transformation keeps every packet and leaves it
/// unchanged: for every byte sequence, it hands exactly that sequence to KCP.
pub proof fn lemma_default_incoming_keeps_bytes(data: Seq<u8>)
    ensures
        incoming_identity(data) == Some(data),
        incoming_identity(data) matches Some(v) && v.len() == data.len()
            && forall|i: int| 0 <= i < data.len() ==> #[trigger] v[i] == data[i],
{
}

/// The default transformations undo each other: what the default outgoing
/// transformation sends, the default incoming transformation hands back to
/// KCP unchanged and never drops.
pub proof fn lemma_default_transforms_round_trip(data: Seq<u8>)
    ensures
        incoming_identity(outgoing_identity(data)) == Some(data),
{
}

/// The kinds of send error that the settling of a send tells apart.
#[derive(Clone, Copy, Debug, PartialEq, Eq)]
pub enum SendErrorKind {
    /// The socket is not ready and the send would have to block.
    WouldBlock,
    /// The peer reset the connection (on Windows, a UDP socket reports this
    /// once the remote socket has closed).
    ConnectionReset,
    /// Any other error.
    Other,
}

/// A failed send attempt: the kind of its error, and the error itself.
pub struct SendFailure<E> {
    pub kind: SendErrorKind,
    pub error: E,
}

/// A send error of this kind is no failure for KCP: the packet counts as
/// sent, and KCP's own retransmission takes care of it.
pub open spec fn is_transient(kind: SendErrorKind) -> bool {
    kind is WouldBlock || kind is ConnectionReset
}

/// What a UDP send of `data` reports, given what the non-blocking send
/// attempt gave back.
pub open spec fn settled_send<E>(outcome: Result<usize, SendFailure<E>>, data: Seq<u8>) -> Result<usize, E> {
    match outcome {
        Ok(n) => Ok(n),
        Err(failure) => if is_transient(failure.kind) {
            Ok(data.len() as usize)
        } else {
            Err(failure.error)
        },
    }
}

/// Settles the outcome of a non-blocking send of `data`.
///
/// A successful send reports the bytes written. A send that would block, or
/// that meets a connection reset, reports the whole of `data` as sent. Any
/// other error is handed back as it came.
pub fn resolve_send<E>(outcome: Result<usize, SendFailure<E>>, data: &[u8]) -> (res: Result<usize, E>)
    ensures
        res == settled_send(outcome, data@),
{
    match outcome {
        Ok(n) => Ok(n),
        Err(failure) => match failure.kind {
            SendErrorKind::WouldBlock => Ok(data.len()),
            SendErrorKind::ConnectionReset => Ok(data.len()),
            SendErrorKind::Other => Err(failure.error),
        },
    }
}

/// Settling a send never turns a success into anything else, never reports
/// a transient error (a send that would block, a connection reset) as a
/// failure but as the whole packet sent, and hands back every other error
/// as it came.
pub proof fn lemma_settled_send_outcomes<E>(outcome: Result<usize, SendFailure<E>>, data: Seq<u8>)
    ensures
        match outcome {
            Ok(n) => settled_send(outcome, data) == Ok::<usize, E>(n),
            Err(f) => if is_transient(f.kind) {
                settled_send(outcome, data) == Ok::<usize, E>(data.len() as usize)
            } else {
                settled_send(outcome, data) == Err::<usize, E>(f.error)
            },
        },
        settled_send(outcome, data) is Err <==> (outcome matches Err(f) && f.kind is Other),
{
}

} // verus!
