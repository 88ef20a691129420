//! QUIC as a transport for DNS.
pub mod client;
pub mod config;
