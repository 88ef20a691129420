//! A DNS ingress proxy: DoT, DoH, DoQ and DoH3 listeners whose upstream is found
//! by rewriting the TLS server name.
pub mod app;
pub mod config;
pub mod error;
pub mod metrics;
pub mod octets;
pub mod proxy;
pub mod quic;
pub mod readers;
pub mod rewrite;
pub mod rewriters;
pub mod sni;
pub mod tasks;
pub mod text;
pub mod text_map;
pub mod tls_utils;
pub mod upstream;
pub mod utils;
