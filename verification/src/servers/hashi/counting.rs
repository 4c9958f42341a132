//! A server for the Hashicorp counting service.

use crate::common::{format_address, format_url, rand_string, spec_address, spec_url};
use crate::registry::ConfigStore;
use crate::server::{
    alphanumeric_of_len, generated_handle, message_wait, new_handle, BuildError, Config,
    ContainerConfig, ContainerSpec, ImageSource, LogStream, RunningContainer, Server,
    WaitCondition,
};
use crate::strmap::StringMap;
use vstd::prelude::*;

verus! {

/// Configuration for creating a Hashicorp counting service server.
///
/// By default the counting service listens on port 9001 for HTTP
/// requests, exposed on the host port given by the `port` field.
pub struct CountingServerConfig {
    pub args: Vec<String>,
    pub env: StringMap,
    pub handle: String,
    pub port: u32,
    pub timeout: u16,
    pub token: String,
    pub version: String,
}

impl CountingServerConfig {
    pub fn builder() -> (b: CountingServerConfigBuilder)
        ensures
            b == CountingServerConfigBuilder::spec_empty(),
    {
        CountingServerConfigBuilder::default()
    }
}

/// Relates a builder to the configuration it builds: every set field is
/// kept, and every unset field holds its default.
pub open spec fn counting_built_from(b: CountingServerConfigBuilder, c: CountingServerConfig) -> bool {
    &&& (match b.args {
        Some(a) => c.args == a,
        None => c.args@ == Seq::<String>::empty(),
    })
    &&& (match b.env {
        Some(e) => c.env == e,
        None => c.env@ == Map::<Seq<char>, Seq<char>>::empty(),
    })
    &&& (match b.handle {
        Some(h) => c.handle == h,
        None => generated_handle("hashicorp/counting-service"@, c.handle@, 10),
    })
    &&& (match b.port {
        Some(p) => c.port == p,
        None => c.port == 9500,
    })
    &&& (match b.timeout {
        Some(t) => c.timeout == t,
        None => c.timeout == 15,
    })
    &&& (match b.token {
        Some(t) => c.token == t,
        None => alphanumeric_of_len(c.token@, 16),
    })
    &&& (match b.version {
        Some(v) => c.version == v,
        None => c.version@ == "0.0.2"@,
    })
}

/// Builder for [`CountingServerConfig`]: every field is optional and falls back
/// to its default at build time.
pub struct CountingServerConfigBuilder {
    pub args: Option<Vec<String>>,
    pub env: Option<StringMap>,
    pub handle: Option<String>,
    pub port: Option<u32>,
    pub timeout: Option<u16>,
    pub token: Option<String>,
    pub version: Option<String>,
}

impl Default for CountingServerConfigBuilder {
    /// The empty builder: no field set.
    fn default() -> (b: Self)
        ensures
            b == Self::spec_empty(),
    {
        CountingServerConfigBuilder {
            args: None,
            env: None,
            handle: None,
            port: None,
            timeout: None,
            token: None,
            version: None,
        }
    }
}

impl CountingServerConfigBuilder {
    /// The builder with no field set.
    pub open spec fn spec_empty() -> CountingServerConfigBuilder {
        CountingServerConfigBuilder {
            args: None,
            env: None,
            handle: None,
            port: None,
            timeout: None,
            token: None,
            version: None,
        }
    }

    pub fn args(self, value: Vec<String>) -> (b: Self)
        ensures
            b == (CountingServerConfigBuilder { args: Some(value), ..self }),
    {
        CountingServerConfigBuilder { args: Some(value), ..self }
    }

    pub fn env(self, value: StringMap) -> (b: Self)
        ensures
            b == (CountingServerConfigBuilder { env: Some(value), ..self }),
    {
        CountingServerConfigBuilder { env: Some(value), ..self }
    }

    pub fn handle(self, value: String) -> (b: Self)
        ensures
            b == (CountingServerConfigBuilder { handle: Some(value), ..self }),
    {
        CountingServerConfigBuilder { handle: Some(value), ..self }
    }

    pub fn port(self, value: u32) -> (b: Self)
        ensures
            b == (CountingServerConfigBuilder { port: Some(value), ..self }),
    {
        CountingServerConfigBuilder { port: Some(value), ..self }
    }

    pub fn timeout(self, value: u16) -> (b: Self)
        ensures
            b == (CountingServerConfigBuilder { timeout: Some(value), ..self }),
    {
        CountingServerConfigBuilder { timeout: Some(value), ..self }
    }

    pub fn token(self, value: String) -> (b: Self)
        ensures
            b == (CountingServerConfigBuilder { token: Some(value), ..self }),
    {
        CountingServerConfigBuilder { token: Some(value), ..self }
    }

    pub fn version(self, value: String) -> (b: Self)
        ensures
            b == (CountingServerConfigBuilder { version: Some(value), ..self }),
    {
        CountingServerConfigBuilder { version: Some(value), ..self }
    }

    /// Builds the configuration, filling every unset field with its default.
    /// Building cannot fail.
    pub fn build(self) -> (r: Result<CountingServerConfig, BuildError>)
        ensures
            r is Ok,
            counting_built_from(self, r.unwrap()),
    {
        Ok(
            CountingServerConfig {
                args: match self.args {
                    Some(a) => a,
                    None => Vec::new(),
                },
                env: match self.env {
                    Some(e) => e,
                    None => StringMap::new(),
                },
                handle: match self.handle {
                    Some(h) => h,
                    None => new_handle("hashicorp/counting-service"),
                },
                port: match self.port {
                    Some(p) => p,
                    None => 9500,
                },
                timeout: match self.timeout {
                    Some(t) => t,
                    None => 15,
                },
                token: match self.token {
                    Some(t) => t,
                    None => rand_string(16),
                },
                version: match self.version {
                    Some(v) => v,
                    None => "0.0.2".to_owned(),
                },
            },
        )
    }
}

impl Config for CountingServerConfig {
    open spec fn spec_handle(&self) -> Seq<char> {
        self.handle@
    }

    open spec fn spec_composition(&self) -> ContainerSpec {
        ContainerSpec {
            args: self.args.deep_view(),
            env: self.env@,
            handle: self.handle@,
            name: "hashicorp/counting-service"@,
            source: ImageSource::DockerHub,
            version: self.version@,
            ports: Some(seq![(9001u32, self.port)]),
            wait: Some(message_wait("Serving at"@, LogStream::Stdout, self.timeout)),
            bind_mounts: Map::empty(),
        }
    }

    open spec fn stored_in(s: ConfigStore) -> Option<CountingServerConfig> {
        s.counting
    }

    open spec fn spec_store(s: ConfigStore, c: CountingServerConfig) -> ConfigStore {
        ConfigStore { counting: Some(c), ..s }
    }

    fn composition(&self) -> (c: ContainerConfig) {
        let mut ports: Vec<(u32, u32)> = Vec::new();
        ports.push((9001, self.port));

        let wait = WaitCondition {
            message: "Serving at".to_owned(),
            source: LogStream::Stdout,
            timeout: self.timeout,
        };

        let c = ContainerConfig {
            args: self.args.clone(),
            env: self.env.clone(),
            handle: self.handle.clone(),
            name: "hashicorp/counting-service".to_owned(),
            source: ImageSource::DockerHub,
            version: self.version.clone(),
            ports: Some(ports),
            wait: Some(wait),
            bind_mounts: StringMap::new(),
        };
        proof {
            assert(c.args@ =~= self.args@);
            assert(c@.args =~= self.args.deep_view());
            assert(c@.ports.unwrap() =~= seq![(9001u32, self.port)]);
            assert(c@ =~= self.spec_composition());
        }
        c
    }

    fn handle(&self) -> &str {
        self.handle.as_str()
    }

    fn store(self, s: &mut ConfigStore) {
        s.counting = Some(self);
    }

    fn fetch(s: &ConfigStore) -> Option<&CountingServerConfig> {
        s.counting.as_ref()
    }

    proof fn lemma_store_retrieves(s: ConfigStore, c: CountingServerConfig) {
    }
}

/// A running instance of a counting service server.
///
/// The server address reachable from the host is given by
/// `external_address`; other containers should use
/// `internal_address` instead.
pub struct CountingServer {
    pub external_port: u32,
    pub internal_port: u32,
    pub ip: String,
}

impl CountingServer {
    /// The external address in the form of localhost:{port}
    pub fn external_address(&self) -> (a: String)
        ensures
            a@ == spec_address("localhost"@, self.external_port),
    {
        format_address("localhost", self.external_port)
    }

    /// The external HTTP address
    pub fn external_url(&self) -> (a: String)
        ensures
            a@ == spec_url("http"@, "localhost"@, self.external_port),
    {
        format_url("http", "localhost", self.external_port)
    }

    /// The container internal address in the form of {ip}:{port}
    pub fn internal_address(&self) -> (a: String)
        ensures
            a@ == spec_address(self.ip@, self.internal_port),
    {
        format_address(self.ip.as_str(), self.internal_port)
    }

    /// The internal HTTP address
    pub fn internal_url(&self) -> (a: String)
        ensures
            a@ == spec_url("http"@, self.ip@, self.internal_port),
    {
        format_url("http", self.ip.as_str(), self.internal_port)
    }
}

impl Server for CountingServer {
    type Config = CountingServerConfig;

    open spec fn constructed_from(
        s: CountingServer,
        config: CountingServerConfig,
        container: RunningContainer,
    ) -> bool {
        s == (CountingServer {
            external_port: config.port,
            internal_port: 9001,
            ip: container.ip,
        })
    }

    fn new(config: &CountingServerConfig, container: &RunningContainer) -> (s: CountingServer) {
        CountingServer {
            external_port: config.port,
            internal_port: 9001,
            ip: container.ip.clone(),
        }
    }
}

} // verus!
