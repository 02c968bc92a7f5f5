//! The transport side of the KCP runtime.

pub mod addr;
pub mod transport;

pub use addr::PeerAddr;
pub use transport::{resolve_send, KcpTransport, SendErrorKind, SendFailure};
