//! The listeners.
pub mod doh;
pub mod doh3;
pub mod doh3_answers;
pub mod doq;
pub mod dot;
pub mod healthcheck;
pub mod listener;
pub mod streams;

pub use doh::DoHServer;
pub use doh3::DoH3Server;
pub use doq::DoQServer;
pub use dot::DoTServer;
pub use healthcheck::HealthcheckServer;
