//! Contains plain web servers.

pub mod nginx;

pub use nginx::{NginxServer, NginxServerConfig};
