//! KCP packet transport: the pluggable layer between the KCP protocol engine
//! and the network, with the rule by which a non-blocking datagram send is
//! settled.

pub mod tokio_rt;
