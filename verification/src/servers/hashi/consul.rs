//! A server for Hashicorp Consul.

use crate::common::{format_address, format_url, rand_string, spec_address, spec_url};
use crate::registry::ConfigStore;
use crate::server::{
    alphanumeric_of_len, generated_handle, message_wait, new_handle, BuildError, Config,
    ContainerConfig, ContainerSpec, ImageSource, LogStream, RunningContainer, Server,
    WaitCondition,
};
use crate::strmap::StringMap;
use vstd::prelude::*;

verus! {

/// Configuration for creating a Hashicorp Consul server.
///
/// By default the Consul server listens on port 8500 for HTTP
/// requests, exposed on the host port given by the `port` field.
pub struct ConsulServerConfig {
    pub args: Vec<String>,
    pub env: StringMap,
    pub handle: String,
    pub port: u32,
    pub timeout: u16,
    pub token: String,
    pub version: String,
}

impl ConsulServerConfig {
    pub fn builder() -> (b: ConsulServerConfigBuilder)
        ensures
            b == ConsulServerConfigBuilder::spec_empty(),
    {
        ConsulServerConfigBuilder::default()
    }
}

/// Relates a builder to the configuration it builds: every set field is
/// kept, and every unset field holds its default.
pub open spec fn consul_built_from(b: ConsulServerConfigBuilder, c: ConsulServerConfig) -> bool {
    &&& (match b.args {
        Some(a) => c.args == a,
        None => c.args@ == Seq::<String>::empty(),
    })
    &&& (match b.env {
        Some(e) => c.env == e,
        None => c.env@ == Map::<Seq<char>, Seq<char>>::empty(),
    })
    &&& (match b.handle {
        Some(h) => c.handle == h,
        None => generated_handle("consul"@, c.handle@, 10),
    })
    &&& (match b.port {
        Some(p) => c.port == p,
        None => c.port == 9500,
    })
    &&& (match b.timeout {
        Some(t) => c.timeout == t,
        None => c.timeout == 15,
    })
    &&& (match b.token {
        Some(t) => c.token == t,
        None => alphanumeric_of_len(c.token@, 16),
    })
    &&& (match b.version {
        Some(v) => c.version == v,
        None => c.version@ == "latest"@,
    })
}

/// Builder for [`ConsulServerConfig`]: every field is optional and falls back
/// to its default at build time.
pub struct ConsulServerConfigBuilder {
    pub args: Option<Vec<String>>,
    pub env: Option<StringMap>,
    pub handle: Option<String>,
    pub port: Option<u32>,
    pub timeout: Option<u16>,
    pub token: Option<String>,
    pub version: Option<String>,
}

impl Default for ConsulServerConfigBuilder {
    /// The empty builder: no field set.
    fn default() -> (b: Self)
        ensures
            b == Self::spec_empty(),
    {
        ConsulServerConfigBuilder {
            args: None,
            env: None,
            handle: None,
            port: None,
            timeout: None,
            token: None,
            version: None,
        }
    }
}

impl ConsulServerConfigBuilder {
    /// The builder with no field set.
    pub open spec fn spec_empty() -> ConsulServerConfigBuilder {
        ConsulServerConfigBuilder {
            args: None,
            env: None,
            handle: None,
            port: None,
            timeout: None,
            token: None,
            version: None,
        }
    }

    pub fn args(self, value: Vec<String>) -> (b: Self)
        ensures
            b == (ConsulServerConfigBuilder { args: Some(value), ..self }),
    {
        ConsulServerConfigBuilder { args: Some(value), ..self }
    }

    pub fn env(self, value: StringMap) -> (b: Self)
        ensures
            b == (ConsulServerConfigBuilder { env: Some(value), ..self }),
    {
        ConsulServerConfigBuilder { env: Some(value), ..self }
    }

    pub fn handle(self, value: String) -> (b: Self)
        ensures
            b == (ConsulServerConfigBuilder { handle: Some(value), ..self }),
    {
        ConsulServerConfigBuilder { handle: Some(value), ..self }
    }

    pub fn port(self, value: u32) -> (b: Self)
        ensures
            b == (ConsulServerConfigBuilder { port: Some(value), ..self }),
    {
        ConsulServerConfigBuilder { port: Some(value), ..self }
    }

    pub fn timeout(self, value: u16) -> (b: Self)
        ensures
            b == (ConsulServerConfigBuilder { timeout: Some(value), ..self }),
    {
        ConsulServerConfigBuilder { timeout: Some(value), ..self }
    }

    pub fn token(self, value: String) -> (b: Self)
        ensures
            b == (ConsulServerConfigBuilder { token: Some(value), ..self }),
    {
        ConsulServerConfigBuilder { token: Some(value), ..self }
    }

    pub fn version(self, value: String) -> (b: Self)
        ensures
            b == (ConsulServerConfigBuilder { version: Some(value), ..self }),
    {
        ConsulServerConfigBuilder { version: Some(value), ..self }
    }

    /// Builds the configuration, filling every unset field with its default.
    /// Building cannot fail.
    pub fn build(self) -> (r: Result<ConsulServerConfig, BuildError>)
        ensures
            r is Ok,
            consul_built_from(self, r.unwrap()),
    {
        Ok(
            ConsulServerConfig {
                args: match self.args {
                    Some(a) => a,
                    None => Vec::new(),
                },
                env: match self.env {
                    Some(e) => e,
                    None => StringMap::new(),
                },
                handle: match self.handle {
                    Some(h) => h,
                    None => new_handle("consul"),
                },
                port: match self.port {
                    Some(p) => p,
                    None => 9500,
                },
                timeout: match self.timeout {
                    Some(t) => t,
                    None => 15,
                },
                token: match self.token {
                    Some(t) => t,
                    None => rand_string(16),
                },
                version: match self.version {
                    Some(v) => v,
                    None => "latest".to_owned(),
                },
            },
        )
    }
}

impl Config for ConsulServerConfig {
    open spec fn spec_handle(&self) -> Seq<char> {
        self.handle@
    }

    open spec fn spec_composition(&self) -> ContainerSpec {
        ContainerSpec {
            args: self.args.deep_view(),
            env: self.env@,
            handle: self.handle@,
            name: "consul"@,
            source: ImageSource::DockerHub,
            version: self.version@,
            ports: Some(seq![(8500u32, self.port)]),
            wait: Some(message_wait("Synced node info"@, LogStream::Stdout, self.timeout)),
            bind_mounts: Map::empty(),
        }
    }

    open spec fn stored_in(s: ConfigStore) -> Option<ConsulServerConfig> {
        s.consul
    }

    open spec fn spec_store(s: ConfigStore, c: ConsulServerConfig) -> ConfigStore {
        ConfigStore { consul: Some(c), ..s }
    }

    fn composition(&self) -> (c: ContainerConfig) {
        let mut ports: Vec<(u32, u32)> = Vec::new();
        ports.push((8500, self.port));

        let wait = WaitCondition {
            message: "Synced node info".to_owned(),
            source: LogStream::Stdout,
            timeout: self.timeout,
        };

        let c = ContainerConfig {
            args: self.args.clone(),
            env: self.env.clone(),
            handle: self.handle.clone(),
            name: "consul".to_owned(),
            source: ImageSource::DockerHub,
            version: self.version.clone(),
            ports: Some(ports),
            wait: Some(wait),
            bind_mounts: StringMap::new(),
        };
        proof {
            assert(c.args@ =~= self.args@);
            assert(c@.args =~= self.args.deep_view());
            assert(c@.ports.unwrap() =~= seq![(8500u32, self.port)]);
            assert(c@ =~= self.spec_composition());
        }
        c
    }

    fn handle(&self) -> &str {
        self.handle.as_str()
    }

    fn store(self, s: &mut ConfigStore) {
        s.consul = Some(self);
    }

    fn fetch(s: &ConfigStore) -> Option<&ConsulServerConfig> {
        s.consul.as_ref()
    }

    proof fn lemma_store_retrieves(s: ConfigStore, c: ConsulServerConfig) {
    }
}

/// A running instance of a Consul server.
///
/// The server address reachable from the host is given by
/// `external_address`; other containers should use
/// `internal_address` instead.
pub struct ConsulServer {
    pub external_port: u32,
    pub internal_port: u32,
    pub ip: String,
}

impl ConsulServer {
    /// The external address in the form of localhost:{port}
    pub fn external_address(&self) -> (a: String)
        ensures
            a@ == spec_address("localhost"@, self.external_port),
    {
        format_address("localhost", self.external_port)
    }

    /// The external HTTP address
    pub fn external_url(&self) -> (a: String)
        ensures
            a@ == spec_url("http"@, "localhost"@, self.external_port),
    {
        format_url("http", "localhost", self.external_port)
    }

    /// The container internal address in the form of {ip}:{port}
    pub fn internal_address(&self) -> (a: String)
        ensures
            a@ == spec_address(self.ip@, self.internal_port),
    {
        format_address(self.ip.as_str(), self.internal_port)
    }

    /// The internal HTTP address
    pub fn internal_url(&self) -> (a: String)
        ensures
            a@ == spec_url("http"@, self.ip@, self.internal_port),
    {
        format_url("http", self.ip.as_str(), self.internal_port)
    }
}

impl Server for ConsulServer {
    type Config = ConsulServerConfig;

    open spec fn constructed_from(
        s: ConsulServer,
        config: ConsulServerConfig,
        container: RunningContainer,
    ) -> bool {
        s == (ConsulServer {
            external_port: config.port,
            internal_port: 8500,
            ip: container.ip,
        })
    }

    fn new(config: &ConsulServerConfig, container: &RunningContainer) -> (s: ConsulServer) {
        ConsulServer {
            external_port: config.port,
            internal_port: 8500,
            ip: container.ip.clone(),
        }
    }
}

} // verus!
