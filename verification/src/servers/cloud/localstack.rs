//! A LocalStack server.

use crate::common::{format_address, format_url, spec_address, spec_url};
use crate::registry::ConfigStore;
use crate::server::{
    generated_handle, message_wait, new_handle, BuildError, Config, ContainerConfig,
    ContainerSpec, ImageSource, LogStream, RunningContainer, Server, WaitCondition,
};
use crate::strmap::StringMap;
use vstd::prelude::*;

verus! {

/// Configuration for creating a LocalStack server.
///
/// By default the LocalStack edge port 4566 is exposed on the host
/// port given by the `port` field. The services brought up are
/// controlled through the `env` field.
pub struct LocalStackServerConfig {
    pub args: Vec<String>,
    pub env: StringMap,
    pub handle: String,
    pub port: u32,
    pub timeout: u16,
    pub version: String,
}

impl LocalStackServerConfig {
    pub fn builder() -> (b: LocalStackServerConfigBuilder)
        ensures
            b == LocalStackServerConfigBuilder::spec_empty(),
    {
        LocalStackServerConfigBuilder::default()
    }
}

/// Relates a builder to the configuration it builds: every set field is
/// kept, and every unset field holds its default.
pub open spec fn localstack_built_from(b: LocalStackServerConfigBuilder, c: LocalStackServerConfig) -> bool {
    &&& (match b.args {
        Some(a) => c.args == a,
        None => c.args@ == Seq::<String>::empty(),
    })
    &&& (match b.env {
        Some(e) => c.env == e,
        None => c.env@ == Map::<Seq<char>, Seq<char>>::empty(),
    })
    &&& (match b.handle {
        Some(h) => c.handle == h,
        None => generated_handle("localstack/localstack"@, c.handle@, 10),
    })
    &&& (match b.port {
        Some(p) => c.port == p,
        None => c.port == 4566,
    })
    &&& (match b.timeout {
        Some(t) => c.timeout == t,
        None => c.timeout == 15,
    })
    &&& (match b.version {
        Some(v) => c.version == v,
        None => c.version@ == "latest"@,
    })
}

/// Builder for [`LocalStackServerConfig`]: every field is optional and falls back
/// to its default at build time.
pub struct LocalStackServerConfigBuilder {
    pub args: Option<Vec<String>>,
    pub env: Option<StringMap>,
    pub handle: Option<String>,
    pub port: Option<u32>,
    pub timeout: Option<u16>,
    pub version: Option<String>,
}

impl Default for LocalStackServerConfigBuilder {
    /// The empty builder: no field set.
    fn default() -> (b: Self)
        ensures
            b == Self::spec_empty(),
    {
        LocalStackServerConfigBuilder {
            args: None,
            env: None,
            handle: None,
            port: None,
            timeout: None,
            version: None,
        }
    }
}

impl LocalStackServerConfigBuilder {
    /// The builder with no field set.
    pub open spec fn spec_empty() -> LocalStackServerConfigBuilder {
        LocalStackServerConfigBuilder {
            args: None,
            env: None,
            handle: None,
            port: None,
            timeout: None,
            version: None,
        }
    }

    pub fn args(self, value: Vec<String>) -> (b: Self)
        ensures
            b == (LocalStackServerConfigBuilder { args: Some(value), ..self }),
    {
        LocalStackServerConfigBuilder { args: Some(value), ..self }
    }

    pub fn env(self, value: StringMap) -> (b: Self)
        ensures
            b == (LocalStackServerConfigBuilder { env: Some(value), ..self }),
    {
        LocalStackServerConfigBuilder { env: Some(value), ..self }
    }

    pub fn handle(self, value: String) -> (b: Self)
        ensures
            b == (LocalStackServerConfigBuilder { handle: Some(value), ..self }),
    {
        LocalStackServerConfigBuilder { handle: Some(value), ..self }
    }

    pub fn port(self, value: u32) -> (b: Self)
        ensures
            b == (LocalStackServerConfigBuilder { port: Some(value), ..self }),
    {
        LocalStackServerConfigBuilder { port: Some(value), ..self }
    }

    pub fn timeout(self, value: u16) -> (b: Self)
        ensures
            b == (LocalStackServerConfigBuilder { timeout: Some(value), ..self }),
    {
        LocalStackServerConfigBuilder { timeout: Some(value), ..self }
    }

    pub fn version(self, value: String) -> (b: Self)
        ensures
            b == (LocalStackServerConfigBuilder { version: Some(value), ..self }),
    {
        LocalStackServerConfigBuilder { version: Some(value), ..self }
    }

    /// Builds the configuration, filling every unset field with its default.
    /// Building cannot fail.
    pub fn build(self) -> (r: Result<LocalStackServerConfig, BuildError>)
        ensures
            r is Ok,
            localstack_built_from(self, r.unwrap()),
    {
        Ok(
            LocalStackServerConfig {
                args: match self.args {
                    Some(a) => a,
                    None => Vec::new(),
                },
                env: match self.env {
                    Some(e) => e,
                    None => StringMap::new(),
                },
                handle: match self.handle {
                    Some(h) => h,
                    None => new_handle("localstack/localstack"),
                },
                port: match self.port {
                    Some(p) => p,
                    None => 4566,
                },
                timeout: match self.timeout {
                    Some(t) => t,
                    None => 15,
                },
                version: match self.version {
                    Some(v) => v,
                    None => "latest".to_owned(),
                },
            },
        )
    }
}

impl Config for LocalStackServerConfig {
    open spec fn spec_handle(&self) -> Seq<char> {
        self.handle@
    }

    open spec fn spec_composition(&self) -> ContainerSpec {
        ContainerSpec {
            args: self.args.deep_view(),
            env: self.env@,
            handle: self.handle@,
            name: "localstack/localstack"@,
            source: ImageSource::DockerHub,
            version: self.version@,
            ports: Some(seq![(4566u32, self.port)]),
            wait: Some(message_wait("Ready."@, LogStream::Stdout, self.timeout)),
            bind_mounts: Map::empty(),
        }
    }

    open spec fn stored_in(s: ConfigStore) -> Option<LocalStackServerConfig> {
        s.localstack
    }

    open spec fn spec_store(s: ConfigStore, c: LocalStackServerConfig) -> ConfigStore {
        ConfigStore { localstack: Some(c), ..s }
    }

    fn composition(&self) -> (c: ContainerConfig) {
        let mut ports: Vec<(u32, u32)> = Vec::new();
        ports.push((4566, self.port));

        let wait = WaitCondition {
            message: "Ready.".to_owned(),
            source: LogStream::Stdout,
            timeout: self.timeout,
        };

        let c = ContainerConfig {
            args: self.args.clone(),
            env: self.env.clone(),
            handle: self.handle.clone(),
            name: "localstack/localstack".to_owned(),
            source: ImageSource::DockerHub,
            version: self.version.clone(),
            ports: Some(ports),
            wait: Some(wait),
            bind_mounts: StringMap::new(),
        };
        proof {
            assert(c.args@ =~= self.args@);
            assert(c@.args =~= self.args.deep_view());
            assert(c@.ports.unwrap() =~= seq![(4566u32, self.port)]);
            assert(c@ =~= self.spec_composition());
        }
        c
    }

    fn handle(&self) -> &str {
        self.handle.as_str()
    }

    fn store(self, s: &mut ConfigStore) {
        s.localstack = Some(self);
    }

    fn fetch(s: &ConfigStore) -> Option<&LocalStackServerConfig> {
        s.localstack.as_ref()
    }

    proof fn lemma_store_retrieves(s: ConfigStore, c: LocalStackServerConfig) {
    }
}

/// A running instance of a LocalStack server.
///
/// The server address reachable from the host is given by
/// `external_address`; other containers should use
/// `internal_address` instead.
pub struct LocalStackServer {
    pub external_port: u32,
    pub internal_port: u32,
    pub ip: String,
}

impl LocalStackServer {
    /// The external address in the form of localhost:{port}
    pub fn external_address(&self) -> (a: String)
        ensures
            a@ == spec_address("localhost"@, self.external_port),
    {
        format_address("localhost", self.external_port)
    }

    /// The external HTTP address
    pub fn external_url(&self) -> (a: String)
        ensures
            a@ == spec_url("http"@, "localhost"@, self.external_port),
    {
        format_url("http", "localhost", self.external_port)
    }

    /// The container internal address in the form of {ip}:{port}
    pub fn internal_address(&self) -> (a: String)
        ensures
            a@ == spec_address(self.ip@, self.internal_port),
    {
        format_address(self.ip.as_str(), self.internal_port)
    }

    /// The internal HTTP address
    pub fn internal_url(&self) -> (a: String)
        ensures
            a@ == spec_url("http"@, self.ip@, self.internal_port),
    {
        format_url("http", self.ip.as_str(), self.internal_port)
    }
}

impl Server for LocalStackServer {
    type Config = LocalStackServerConfig;

    open spec fn constructed_from(
        s: LocalStackServer,
        config: LocalStackServerConfig,
        container: RunningContainer,
    ) -> bool {
        s == (LocalStackServer {
            external_port: config.port,
            internal_port: 4566,
            ip: container.ip,
        })
    }

    fn new(config: &LocalStackServerConfig, container: &RunningContainer) -> (s: LocalStackServer) {
        LocalStackServer {
            external_port: config.port,
            internal_port: 4566,
            ip: container.ip.clone(),
        }
    }
}

} // verus!
