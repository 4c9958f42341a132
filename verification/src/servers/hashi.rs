//! Contains servers for Hashicorp products.

pub mod consul;
pub mod counting;
pub mod vault;

pub use consul::{ConsulServer, ConsulServerConfig};
pub use vault::{VaultServer, VaultServerConfig};
