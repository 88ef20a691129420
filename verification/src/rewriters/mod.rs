//! The rewriters of TLS server names.
pub mod base;
