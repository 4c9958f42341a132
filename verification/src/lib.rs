//! A small test framework for running integration tests against server
//! containers.
//!
//! A test registers any number of service configurations, each describing how
//! one container is to be started. Running the test materializes every
//! configuration into a container descriptor, brings the containers up through
//! an orchestration layer, hands the test body a [`TestInstance`] from which
//! strongly-typed server handles can be resolved, and tears every container
//! down afterwards.

pub mod common;
pub mod registry;
pub mod server;
pub mod servers;
pub mod strmap;

pub use common::rand_string;
pub use server::{new_handle, Config, ContainerConfig, Server};
pub use test::{Test, TestInstance};
