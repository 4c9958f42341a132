//! A mock OAuth (OIDC) server.

use crate::common::{format_address, format_url, spec_address, spec_url};
use crate::registry::ConfigStore;
use crate::server::{
    generated_handle, message_wait, new_handle, BuildError, Config, ContainerConfig,
    ContainerSpec, ImageSource, LogStream, RunningContainer, Server, WaitCondition,
};
use crate::strmap::StringMap;
use vstd::prelude::*;

verus! {

/// Configuration for creating a mock OAuth (OIDC) server.
///
/// By default the OAuth server listens on port 8080 for HTTP
/// requests, exposed on the host port given by the `port` field.
pub struct OIDCServerConfig {
    pub args: Vec<String>,
    pub env: StringMap,
    pub handle: String,
    pub port: u32,
    pub timeout: u16,
    pub version: String,
}

impl OIDCServerConfig {
    pub fn builder() -> (b: OIDCServerConfigBuilder)
        ensures
            b == OIDCServerConfigBuilder::spec_empty(),
    {
        OIDCServerConfigBuilder::default()
    }
}

/// Relates a builder to the configuration it builds: every set field is
/// kept, and every unset field holds its default.
pub open spec fn oidc_built_from(b: OIDCServerConfigBuilder, c: OIDCServerConfig) -> bool {
    &&& (match b.args {
        Some(a) => c.args == a,
        None => c.args@ == Seq::<String>::empty(),
    })
    &&& (match b.env {
        Some(e) => c.env == e,
        None => c.env@ == Map::<Seq<char>, Seq<char>>::empty(),
    })
    &&& (match b.handle {
        Some(h) => c.handle == h,
        None => generated_handle("ghcr.io/navikt/mock-oauth2-server"@, c.handle@, 10),
    })
    &&& (match b.port {
        Some(p) => c.port == p,
        None => c.port == 8200,
    })
    &&& (match b.timeout {
        Some(t) => c.timeout == t,
        None => c.timeout == 15,
    })
    &&& (match b.version {
        Some(v) => c.version == v,
        None => c.version@ == "0.3.5"@,
    })
}

/// Builder for [`OIDCServerConfig`]: every field is optional and falls back
/// to its default at build time.
pub struct OIDCServerConfigBuilder {
    pub args: Option<Vec<String>>,
    pub env: Option<StringMap>,
    pub handle: Option<String>,
    pub port: Option<u32>,
    pub timeout: Option<u16>,
    pub version: Option<String>,
}

impl Default for OIDCServerConfigBuilder {
    /// The empty builder: no field set.
    fn default() -> (b: Self)
        ensures
            b == Self::spec_empty(),
    {
        OIDCServerConfigBuilder {
            args: None,
            env: None,
            handle: None,
            port: None,
            timeout: None,
            version: None,
        }
    }
}

impl OIDCServerConfigBuilder {
    /// The builder with no field set.
    pub open spec fn spec_empty() -> OIDCServerConfigBuilder {
        OIDCServerConfigBuilder {
            args: None,
            env: None,
            handle: None,
            port: None,
            timeout: None,
            version: None,
        }
    }

    pub fn args(self, value: Vec<String>) -> (b: Self)
        ensures
            b == (OIDCServerConfigBuilder { args: Some(value), ..self }),
    {
        OIDCServerConfigBuilder { args: Some(value), ..self }
    }

    pub fn env(self, value: StringMap) -> (b: Self)
        ensures
            b == (OIDCServerConfigBuilder { env: Some(value), ..self }),
    {
        OIDCServerConfigBuilder { env: Some(value), ..self }
    }

    pub fn handle(self, value: String) -> (b: Self)
        ensures
            b == (OIDCServerConfigBuilder { handle: Some(value), ..self }),
    {
        OIDCServerConfigBuilder { handle: Some(value), ..self }
    }

    pub fn port(self, value: u32) -> (b: Self)
        ensures
            b == (OIDCServerConfigBuilder { port: Some(value), ..self }),
    {
        OIDCServerConfigBuilder { port: Some(value), ..self }
    }

    pub fn timeout(self, value: u16) -> (b: Self)
        ensures
            b == (OIDCServerConfigBuilder { timeout: Some(value), ..self }),
    {
        OIDCServerConfigBuilder { timeout: Some(value), ..self }
    }

    pub fn version(self, value: String) -> (b: Self)
        ensures
            b == (OIDCServerConfigBuilder { version: Some(value), ..self }),
    {
        OIDCServerConfigBuilder { version: Some(value), ..self }
    }

    /// Builds the configuration, filling every unset field with its default.
    /// Building cannot fail.
    pub fn build(self) -> (r: Result<OIDCServerConfig, BuildError>)
        ensures
            r is Ok,
            oidc_built_from(self, r.unwrap()),
    {
        Ok(
            OIDCServerConfig {
                args: match self.args {
                    Some(a) => a,
                    None => Vec::new(),
                },
                env: match self.env {
                    Some(e) => e,
                    None => StringMap::new(),
                },
                handle: match self.handle {
                    Some(h) => h,
                    None => new_handle("ghcr.io/navikt/mock-oauth2-server"),
                },
                port: match self.port {
                    Some(p) => p,
                    None => 8200,
                },
                timeout: match self.timeout {
                    Some(t) => t,
                    None => 15,
                },
                version: match self.version {
                    Some(v) => v,
                    None => "0.3.5".to_owned(),
                },
            },
        )
    }
}

impl Config for OIDCServerConfig {
    open spec fn spec_handle(&self) -> Seq<char> {
        self.handle@
    }

    open spec fn spec_composition(&self) -> ContainerSpec {
        ContainerSpec {
            args: self.args.deep_view(),
            env: self.env@,
            handle: self.handle@,
            name: "ghcr.io/navikt/mock-oauth2-server"@,
            source: ImageSource::DockerHub,
            version: self.version@,
            ports: Some(seq![(8080u32, self.port)]),
            wait: Some(message_wait("started server on address"@, LogStream::Stdout, self.timeout)),
            bind_mounts: Map::empty(),
        }
    }

    open spec fn stored_in(s: ConfigStore) -> Option<OIDCServerConfig> {
        s.oidc
    }

    open spec fn spec_store(s: ConfigStore, c: OIDCServerConfig) -> ConfigStore {
        ConfigStore { oidc: Some(c), ..s }
    }

    fn composition(&self) -> (c: ContainerConfig) {
        let mut ports: Vec<(u32, u32)> = Vec::new();
        ports.push((8080, self.port));

        let wait = WaitCondition {
            message: "started server on address".to_owned(),
            source: LogStream::Stdout,
            timeout: self.timeout,
        };

        let c = ContainerConfig {
            args: self.args.clone(),
            env: self.env.clone(),
            handle: self.handle.clone(),
            name: "ghcr.io/navikt/mock-oauth2-server".to_owned(),
            source: ImageSource::DockerHub,
            version: self.version.clone(),
            ports: Some(ports),
            wait: Some(wait),
            bind_mounts: StringMap::new(),
        };
        proof {
            assert(c.args@ =~= self.args@);
            assert(c@.args =~= self.args.deep_view());
            assert(c@.ports.unwrap() =~= seq![(8080u32, self.port)]);
            assert(c@ =~= self.spec_composition());
        }
        c
    }

    fn handle(&self) -> &str {
        self.handle.as_str()
    }

    fn store(self, s: &mut ConfigStore) {
        s.oidc = Some(self);
    }

    fn fetch(s: &ConfigStore) -> Option<&OIDCServerConfig> {
        s.oidc.as_ref()
    }

    proof fn lemma_store_retrieves(s: ConfigStore, c: OIDCServerConfig) {
    }
}

/// A running instance of a mock OAuth server.
///
/// The server address reachable from the host is given by
/// `external_address`; other containers should use
/// `internal_address` instead.
pub struct OIDCServer {
    pub external_port: u32,
    pub internal_port: u32,
    pub ip: String,
}

impl OIDCServer {
    /// The external address in the form of localhost:{port}
    pub fn external_address(&self) -> (a: String)
        ensures
            a@ == spec_address("localhost"@, self.external_port),
    {
        format_address("localhost", self.external_port)
    }

    /// The external HTTP address
    pub fn external_url(&self) -> (a: String)
        ensures
            a@ == spec_url("http"@, "localhost"@, self.external_port),
    {
        format_url("http", "localhost", self.external_port)
    }

    /// The container internal address in the form of {ip}:{port}
    pub fn internal_address(&self) -> (a: String)
        ensures
            a@ == spec_address(self.ip@, self.internal_port),
    {
        format_address(self.ip.as_str(), self.internal_port)
    }

    /// The internal HTTP address
    pub fn internal_url(&self) -> (a: String)
        ensures
            a@ == spec_url("http"@, self.ip@, self.internal_port),
    {
        format_url("http", self.ip.as_str(), self.internal_port)
    }
}

impl Server for OIDCServer {
    type Config = OIDCServerConfig;

    open spec fn constructed_from(
        s: OIDCServer,
        config: OIDCServerConfig,
        container: RunningContainer,
    ) -> bool {
        s == (OIDCServer {
            external_port: config.port,
            internal_port: 8080,
            ip: container.ip,
        })
    }

    fn new(config: &OIDCServerConfig, container: &RunningContainer) -> (s: OIDCServer) {
        OIDCServer {
            external_port: config.port,
            internal_port: 8080,
            ip: container.ip.clone(),
        }
    }
}

} // verus!
