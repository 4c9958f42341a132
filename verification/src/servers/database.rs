//! Contains database servers.

pub mod postgres;
pub mod redis;

pub use postgres::{PostgresServer, PostgresServerConfig};
pub use redis::{RedisServer, RedisServerConfig};
