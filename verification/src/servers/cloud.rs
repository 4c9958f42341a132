//! Contains servers emulating cloud providers.

pub mod localstack;

pub use localstack::{LocalStackServer, LocalStackServerConfig};
