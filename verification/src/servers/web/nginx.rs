//! An Nginx server.

use crate::common::{format_url, spec_url};
use crate::registry::ConfigStore;
use crate::server::{
    generate_composition, generated_handle, message_wait, new_handle, BuildError, Config,
    ContainerConfig, ContainerSpec, ImageSource, LogStream, RunningContainer, Server,
};
use crate::strmap::StringMap;
use vstd::prelude::*;

verus! {

/// Configuration for creating an Nginx server.
///
/// By default the Nginx server listens on port 80 for HTTP requests, exposed
/// on the host port given by the `port` field.
pub struct NginxServerConfig {
    pub args: Vec<String>,
    pub env: StringMap,
    pub handle: String,
    pub port: u32,
    pub timeout: u16,
    pub version: String,
}

impl NginxServerConfig {
    pub fn builder() -> (b: NginxServerConfigBuilder)
        ensures
            b == NginxServerConfigBuilder::spec_empty(),
    {
        NginxServerConfigBuilder::default()
    }
}

/// Relates a builder to the configuration it builds: every set field is
/// kept, and every unset field holds its default.
pub open spec fn nginx_built_from(b: NginxServerConfigBuilder, c: NginxServerConfig) -> bool {
    &&& (match b.args {
        Some(a) => c.args == a,
        None => c.args@ == Seq::<String>::empty(),
    })
    &&& (match b.env {
        Some(e) => c.env == e,
        None => c.env@ == Map::<Seq<char>, Seq<char>>::empty(),
    })
    &&& (match b.handle {
        Some(h) => c.handle == h,
        None => generated_handle("nginx"@, c.handle@, 10),
    })
    &&& (match b.port {
        Some(p) => c.port == p,
        None => c.port == 8080,
    })
    &&& (match b.timeout {
        Some(t) => c.timeout == t,
        None => c.timeout == 15,
    })
    &&& (match b.version {
        Some(v) => c.version == v,
        None => c.version@ == "latest"@,
    })
}

/// Builder for [`NginxServerConfig`]: every field is optional and falls back
/// to its default at build time.
pub struct NginxServerConfigBuilder {
    pub args: Option<Vec<String>>,
    pub env: Option<StringMap>,
    pub handle: Option<String>,
    pub port: Option<u32>,
    pub timeout: Option<u16>,
    pub version: Option<String>,
}

impl Default for NginxServerConfigBuilder {
    /// The empty builder: no field set.
    fn default() -> (b: Self)
        ensures
            b == Self::spec_empty(),
    {
        NginxServerConfigBuilder {
            args: None,
            env: None,
            handle: None,
            port: None,
            timeout: None,
            version: None,
        }
    }
}

impl NginxServerConfigBuilder {
    /// The builder with no field set.
    pub open spec fn spec_empty() -> NginxServerConfigBuilder {
        NginxServerConfigBuilder {
            args: None,
            env: None,
            handle: None,
            port: None,
            timeout: None,
            version: None,
        }
    }

    pub fn args(self, value: Vec<String>) -> (b: Self)
        ensures
            b == (NginxServerConfigBuilder { args: Some(value), ..self }),
    {
        NginxServerConfigBuilder { args: Some(value), ..self }
    }

    pub fn env(self, value: StringMap) -> (b: Self)
        ensures
            b == (NginxServerConfigBuilder { env: Some(value), ..self }),
    {
        NginxServerConfigBuilder { env: Some(value), ..self }
    }

    pub fn handle(self, value: String) -> (b: Self)
        ensures
            b == (NginxServerConfigBuilder { handle: Some(value), ..self }),
    {
        NginxServerConfigBuilder { handle: Some(value), ..self }
    }

    pub fn port(self, value: u32) -> (b: Self)
        ensures
            b == (NginxServerConfigBuilder { port: Some(value), ..self }),
    {
        NginxServerConfigBuilder { port: Some(value), ..self }
    }

    pub fn timeout(self, value: u16) -> (b: Self)
        ensures
            b == (NginxServerConfigBuilder { timeout: Some(value), ..self }),
    {
        NginxServerConfigBuilder { timeout: Some(value), ..self }
    }

    pub fn version(self, value: String) -> (b: Self)
        ensures
            b == (NginxServerConfigBuilder { version: Some(value), ..self }),
    {
        NginxServerConfigBuilder { version: Some(value), ..self }
    }

    /// Builds the configuration, filling every unset field with its default.
    /// Building cannot fail.
    pub fn build(self) -> (r: Result<NginxServerConfig, BuildError>)
        ensures
            r is Ok,
            nginx_built_from(self, r.unwrap()),
    {
        Ok(
            NginxServerConfig {
                args: match self.args {
                    Some(a) => a,
                    None => Vec::new(),
                },
                env: match self.env {
                    Some(e) => e,
                    None => StringMap::new(),
                },
                handle: match self.handle {
                    Some(h) => h,
                    None => new_handle("nginx"),
                },
                port: match self.port {
                    Some(p) => p,
                    None => 8080,
                },
                timeout: match self.timeout {
                    Some(t) => t,
                    None => 15,
                },
                version: match self.version {
                    Some(v) => v,
                    None => "latest".to_owned(),
                },
            },
        )
    }
}

impl Config for NginxServerConfig {
    open spec fn spec_handle(&self) -> Seq<char> {
        self.handle@
    }

    open spec fn spec_composition(&self) -> ContainerSpec {
        ContainerSpec {
            args: self.args.deep_view(),
            env: self.env@,
            handle: self.handle@,
            name: "nginx"@,
            source: ImageSource::DockerHub,
            version: self.version@,
            ports: Some(seq![(80u32, self.port)]),
            wait: Some(
                message_wait(
                    "/docker-entrypoint.sh: Configuration complete; ready for start up"@,
                    LogStream::Stdout,
                    self.timeout,
                ),
            ),
            bind_mounts: Map::empty(),
        }
    }

    open spec fn stored_in(s: ConfigStore) -> Option<NginxServerConfig> {
        s.nginx
    }

    open spec fn spec_store(s: ConfigStore, c: NginxServerConfig) -> ConfigStore {
        ConfigStore { nginx: Some(c), ..s }
    }

    fn composition(&self) -> (c: ContainerConfig) {
        let mut ports: Vec<(u32, u32)> = Vec::new();
        ports.push((80, self.port));

        let c = generate_composition(
            self.args.clone(),
            self.env.clone(),
            self.handle.as_str(),
            "nginx",
            ImageSource::DockerHub,
            self.timeout,
            self.version.as_str(),
            Some(ports),
            Some("/docker-entrypoint.sh: Configuration complete; ready for start up"),
        );
        proof {
            assert(c@.args =~= self.args.deep_view());
            assert(c@.ports.unwrap() =~= seq![(80u32, self.port)]);
            assert(c@ =~= self.spec_composition());
        }
        c
    }

    fn handle(&self) -> &str {
        self.handle.as_str()
    }

    fn store(self, s: &mut ConfigStore) {
        s.nginx = Some(self);
    }

    fn fetch(s: &ConfigStore) -> Option<&NginxServerConfig> {
        s.nginx.as_ref()
    }

    proof fn lemma_store_retrieves(s: ConfigStore, c: NginxServerConfig) {
    }
}

/// A running instance of an Nginx server.
///
/// The server URL reachable from the host is held in `local_address`; other
/// running containers which need access to this server should use the
/// `address` field instead.
pub struct NginxServer {
    pub address: String,
    pub local_address: String,
    pub port: u32,
}

impl Server for NginxServer {
    type Config = NginxServerConfig;

    open spec fn constructed_from(
        s: NginxServer,
        config: NginxServerConfig,
        container: RunningContainer,
    ) -> bool {
        &&& s.address@ == spec_url("http"@, container.ip@, config.port)
        &&& s.local_address@ == spec_url("http"@, "localhost"@, config.port)
        &&& s.port == config.port
    }

    fn new(config: &NginxServerConfig, container: &RunningContainer) -> (s: NginxServer) {
        NginxServer {
            address: format_url("http", container.ip.as_str(), config.port),
            local_address: format_url("http", "localhost", config.port),
            port: config.port,
        }
    }
}

} // verus!
