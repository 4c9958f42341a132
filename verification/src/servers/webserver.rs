//! Contains web servers serving caller-provided content.

pub mod nginx;

pub use nginx::{NginxServer, NginxServerConfig, TlsConfig, WebserverContent};
