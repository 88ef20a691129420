//! DNS over HTTP requests, from their head to their answer.
pub mod answers;
pub mod http;
pub mod request;
