//! A Redis server.

use crate::common::{format_address, format_url, spec_address, spec_url};
use crate::registry::ConfigStore;
use crate::server::{
    generated_handle, message_wait, new_handle, BuildError, Config, ContainerConfig,
    ContainerSpec, ImageSource, LogStream, RunningContainer, Server, WaitCondition,
};
use crate::strmap::StringMap;
use vstd::prelude::*;

verus! {

/// Configuration for creating a Redis server.
///
/// By default the Redis server listens on port 6379, exposed on the
/// host port given by the `port` field.
pub struct RedisServerConfig {
    pub args: Vec<String>,
    pub env: StringMap,
    pub handle: String,
    pub port: u32,
    pub timeout: u16,
    pub version: String,
}

impl RedisServerConfig {
    pub fn builder() -> (b: RedisServerConfigBuilder)
        ensures
            b == RedisServerConfigBuilder::spec_empty(),
    {
        RedisServerConfigBuilder::default()
    }
}

/// Relates a builder to the configuration it builds: every set field is
/// kept, and every unset field holds its default.
pub open spec fn redis_built_from(b: RedisServerConfigBuilder, c: RedisServerConfig) -> bool {
    &&& (match b.args {
        Some(a) => c.args == a,
        None => c.args@ == Seq::<String>::empty(),
    })
    &&& (match b.env {
        Some(e) => c.env == e,
        None => c.env@ == Map::<Seq<char>, Seq<char>>::empty(),
    })
    &&& (match b.handle {
        Some(h) => c.handle == h,
        None => generated_handle("redis"@, c.handle@, 10),
    })
    &&& (match b.port {
        Some(p) => c.port == p,
        None => c.port == 6379,
    })
    &&& (match b.timeout {
        Some(t) => c.timeout == t,
        None => c.timeout == 15,
    })
    &&& (match b.version {
        Some(v) => c.version == v,
        None => c.version@ == "latest"@,
    })
}

/// Builder for [`RedisServerConfig`]: every field is optional and falls back
/// to its default at build time.
pub struct RedisServerConfigBuilder {
    pub args: Option<Vec<String>>,
    pub env: Option<StringMap>,
    pub handle: Option<String>,
    pub port: Option<u32>,
    pub timeout: Option<u16>,
    pub version: Option<String>,
}

impl Default for RedisServerConfigBuilder {
    /// The empty builder: no field set.
    fn default() -> (b: Self)
        ensures
            b == Self::spec_empty(),
    {
        RedisServerConfigBuilder {
            args: None,
            env: None,
            handle: None,
            port: None,
            timeout: None,
            version: None,
        }
    }
}

impl RedisServerConfigBuilder {
    /// The builder with no field set.
    pub open spec fn spec_empty() -> RedisServerConfigBuilder {
        RedisServerConfigBuilder {
            args: None,
            env: None,
            handle: None,
            port: None,
            timeout: None,
            version: None,
        }
    }

    pub fn args(self, value: Vec<String>) -> (b: Self)
        ensures
            b == (RedisServerConfigBuilder { args: Some(value), ..self }),
    {
        RedisServerConfigBuilder { args: Some(value), ..self }
    }

    pub fn env(self, value: StringMap) -> (b: Self)
        ensures
            b == (RedisServerConfigBuilder { env: Some(value), ..self }),
    {
        RedisServerConfigBuilder { env: Some(value), ..self }
    }

    pub fn handle(self, value: String) -> (b: Self)
        ensures
            b == (RedisServerConfigBuilder { handle: Some(value), ..self }),
    {
        RedisServerConfigBuilder { handle: Some(value), ..self }
    }

    pub fn port(self, value: u32) -> (b: Self)
        ensures
            b == (RedisServerConfigBuilder { port: Some(value), ..self }),
    {
        RedisServerConfigBuilder { port: Some(value), ..self }
    }

    pub fn timeout(self, value: u16) -> (b: Self)
        ensures
            b == (RedisServerConfigBuilder { timeout: Some(value), ..self }),
    {
        RedisServerConfigBuilder { timeout: Some(value), ..self }
    }

    pub fn version(self, value: String) -> (b: Self)
        ensures
            b == (RedisServerConfigBuilder { version: Some(value), ..self }),
    {
        RedisServerConfigBuilder { version: Some(value), ..self }
    }

    /// Builds the configuration, filling every unset field with its default.
    /// Building cannot fail.
    pub fn build(self) -> (r: Result<RedisServerConfig, BuildError>)
        ensures
            r is Ok,
            redis_built_from(self, r.unwrap()),
    {
        Ok(
            RedisServerConfig {
                args: match self.args {
                    Some(a) => a,
                    None => Vec::new(),
                },
                env: match self.env {
                    Some(e) => e,
                    None => StringMap::new(),
                },
                handle: match self.handle {
                    Some(h) => h,
                    None => new_handle("redis"),
                },
                port: match self.port {
                    Some(p) => p,
                    None => 6379,
                },
                timeout: match self.timeout {
                    Some(t) => t,
                    None => 15,
                },
                version: match self.version {
                    Some(v) => v,
                    None => "latest".to_owned(),
                },
            },
        )
    }
}

impl Config for RedisServerConfig {
    open spec fn spec_handle(&self) -> Seq<char> {
        self.handle@
    }

    open spec fn spec_composition(&self) -> ContainerSpec {
        ContainerSpec {
            args: self.args.deep_view(),
            env: self.env@,
            handle: self.handle@,
            name: "redis"@,
            source: ImageSource::DockerHub,
            version: self.version@,
            ports: Some(seq![(6379u32, self.port)]),
            wait: Some(message_wait("Ready to accept connections tcp"@, LogStream::Stdout, self.timeout)),
            bind_mounts: Map::empty(),
        }
    }

    open spec fn stored_in(s: ConfigStore) -> Option<RedisServerConfig> {
        s.redis
    }

    open spec fn spec_store(s: ConfigStore, c: RedisServerConfig) -> ConfigStore {
        ConfigStore { redis: Some(c), ..s }
    }

    fn composition(&self) -> (c: ContainerConfig) {
        let mut ports: Vec<(u32, u32)> = Vec::new();
        ports.push((6379, self.port));

        let wait = WaitCondition {
            message: "Ready to accept connections tcp".to_owned(),
            source: LogStream::Stdout,
            timeout: self.timeout,
        };

        let c = ContainerConfig {
            args: self.args.clone(),
            env: self.env.clone(),
            handle: self.handle.clone(),
            name: "redis".to_owned(),
            source: ImageSource::DockerHub,
            version: self.version.clone(),
            ports: Some(ports),
            wait: Some(wait),
            bind_mounts: StringMap::new(),
        };
        proof {
            assert(c.args@ =~= self.args@);
            assert(c@.args =~= self.args.deep_view());
            assert(c@.ports.unwrap() =~= seq![(6379u32, self.port)]);
            assert(c@ =~= self.spec_composition());
        }
        c
    }

    fn handle(&self) -> &str {
        self.handle.as_str()
    }

    fn store(self, s: &mut ConfigStore) {
        s.redis = Some(self);
    }

    fn fetch(s: &ConfigStore) -> Option<&RedisServerConfig> {
        s.redis.as_ref()
    }

    proof fn lemma_store_retrieves(s: ConfigStore, c: RedisServerConfig) {
    }
}

/// A running instance of a Redis server.
///
/// The server address reachable from the host is given by
/// `external_address`; other containers should use
/// `internal_address` instead.
pub struct RedisServer {
    pub external_port: u32,
    pub internal_port: u32,
    pub ip: String,
}

impl RedisServer {
    /// The external address in the form of localhost:{port}
    pub fn external_address(&self) -> (a: String)
        ensures
            a@ == spec_address("localhost"@, self.external_port),
    {
        format_address("localhost", self.external_port)
    }

    /// The external Redis URL
    pub fn external_url(&self) -> (a: String)
        ensures
            a@ == spec_url("redis"@, "localhost"@, self.external_port),
    {
        format_url("redis", "localhost", self.external_port)
    }

    /// The container internal address in the form of {ip}:{port}
    pub fn internal_address(&self) -> (a: String)
        ensures
            a@ == spec_address(self.ip@, self.internal_port),
    {
        format_address(self.ip.as_str(), self.internal_port)
    }

    /// The internal Redis URL
    pub fn internal_url(&self) -> (a: String)
        ensures
            a@ == spec_url("redis"@, self.ip@, self.internal_port),
    {
        format_url("redis", self.ip.as_str(), self.internal_port)
    }
}

impl Server for RedisServer {
    type Config = RedisServerConfig;

    open spec fn constructed_from(
        s: RedisServer,
        config: RedisServerConfig,
        container: RunningContainer,
    ) -> bool {
        s == (RedisServer {
            external_port: config.port,
            internal_port: 6379,
            ip: container.ip,
        })
    }

    fn new(config: &RedisServerConfig, container: &RunningContainer) -> (s: RedisServer) {
        RedisServer {
            external_port: config.port,
            internal_port: 6379,
            ip: container.ip.clone(),
        }
    }
}

} // verus!
