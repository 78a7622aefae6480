//! Capture-to-network audio forwarding: the decisions and arithmetic behind
//! streaming captured sample blocks as unreliable datagrams.

pub mod address;
pub mod chunker;
pub mod device;
pub mod lifecycle;
