//! Certificates, keys and trust anchors.
pub mod certificates;
pub mod resolver;
pub mod roots;
