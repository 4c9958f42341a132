//! Contains servers for authentication services.

pub mod oidc;

pub use oidc::{OIDCServer, OIDCServerConfig};
