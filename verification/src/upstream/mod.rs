//! The way to the upstream servers.
pub mod body;
pub mod headers;
pub mod http;
pub mod http3;
pub mod lease_pool;
pub mod pool;
pub mod quic;
pub mod quic_pool;
