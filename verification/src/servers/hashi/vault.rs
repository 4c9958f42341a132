//! A server for Hashicorp Vault.

use crate::common::{format_address, format_url, rand_string, spec_address, spec_url};
use crate::registry::ConfigStore;
use crate::server::{
    alphanumeric_of_len, generated_handle, message_wait, new_handle, BuildError, Config,
    ContainerConfig, ContainerSpec, ImageSource, LogStream, RunningContainer, Server,
    WaitCondition,
};
use crate::strmap::StringMap;
use vstd::prelude::*;

verus! {

/// Configuration for creating a Hashicorp Vault server.
///
/// A root token is carried in the `token` field; when it is not set
/// explicitly, a random one is generated at build time. By default the Vault
/// server listens on port 8200 for HTTP requests, exposed on the host port
/// given by the `port` field.
pub struct VaultServerConfig {
    pub args: Vec<String>,
    pub env: StringMap,
    pub handle: String,
    pub port: u32,
    pub timeout: u16,
    pub token: String,
    pub version: String,
}

impl VaultServerConfig {
    pub fn builder() -> (b: VaultServerConfigBuilder)
        ensures
            b == VaultServerConfigBuilder::spec_empty(),
    {
        VaultServerConfigBuilder::default()
    }
}

/// Relates a builder to the configuration it builds: every set field is
/// kept, and every unset field holds its default.
pub open spec fn vault_built_from(b: VaultServerConfigBuilder, c: VaultServerConfig) -> bool {
    &&& (match b.args {
        Some(a) => c.args == a,
        None => c.args@ == Seq::<String>::empty(),
    })
    &&& (match b.env {
        Some(e) => c.env == e,
        None => c.env@ == Map::<Seq<char>, Seq<char>>::empty(),
    })
    &&& (match b.handle {
        Some(h) => c.handle == h,
        None => generated_handle("vault"@, c.handle@, 10),
    })
    &&& (match b.port {
        Some(p) => c.port == p,
        None => c.port == 8200,
    })
    &&& (match b.timeout {
        Some(t) => c.timeout == t,
        None => c.timeout == 15,
    })
    &&& (match b.token {
        Some(t) => c.token == t,
        None => alphanumeric_of_len(c.token@, 16),
    })
    &&& (match b.version {
        Some(v) => c.version == v,
        None => c.version@ == "latest"@,
    })
}

/// Builder for [`VaultServerConfig`]: every field is optional and falls back
/// to its default at build time.
pub struct VaultServerConfigBuilder {
    pub args: Option<Vec<String>>,
    pub env: Option<StringMap>,
    pub handle: Option<String>,
    pub port: Option<u32>,
    pub timeout: Option<u16>,
    pub token: Option<String>,
    pub version: Option<String>,
}

impl Default for VaultServerConfigBuilder {
    /// The empty builder: no field set.
    fn default() -> (b: Self)
        ensures
            b == Self::spec_empty(),
    {
        VaultServerConfigBuilder {
            args: None,
            env: None,
            handle: None,
            port: None,
            timeout: None,
            token: None,
            version: None,
        }
    }
}

impl VaultServerConfigBuilder {
    /// The builder with no field set.
    pub open spec fn spec_empty() -> VaultServerConfigBuilder {
        VaultServerConfigBuilder {
            args: None,
            env: None,
            handle: None,
            port: None,
            timeout: None,
            token: None,
            version: None,
        }
    }

    pub fn args(self, value: Vec<String>) -> (b: Self)
        ensures
            b == (VaultServerConfigBuilder { args: Some(value), ..self }),
    {
        VaultServerConfigBuilder { args: Some(value), ..self }
    }

    pub fn env(self, value: StringMap) -> (b: Self)
        ensures
            b == (VaultServerConfigBuilder { env: Some(value), ..self }),
    {
        VaultServerConfigBuilder { env: Some(value), ..self }
    }

    pub fn handle(self, value: String) -> (b: Self)
        ensures
            b == (VaultServerConfigBuilder { handle: Some(value), ..self }),
    {
        VaultServerConfigBuilder { handle: Some(value), ..self }
    }

    pub fn port(self, value: u32) -> (b: Self)
        ensures
            b == (VaultServerConfigBuilder { port: Some(value), ..self }),
    {
        VaultServerConfigBuilder { port: Some(value), ..self }
    }

    pub fn timeout(self, value: u16) -> (b: Self)
        ensures
            b == (VaultServerConfigBuilder { timeout: Some(value), ..self }),
    {
        VaultServerConfigBuilder { timeout: Some(value), ..self }
    }

    pub fn token(self, value: String) -> (b: Self)
        ensures
            b == (VaultServerConfigBuilder { token: Some(value), ..self }),
    {
        VaultServerConfigBuilder { token: Some(value), ..self }
    }

    pub fn version(self, value: String) -> (b: Self)
        ensures
            b == (VaultServerConfigBuilder { version: Some(value), ..self }),
    {
        VaultServerConfigBuilder { version: Some(value), ..self }
    }

    /// Builds the configuration, filling every unset field with its default.
    /// Building cannot fail.
    pub fn build(self) -> (r: Result<VaultServerConfig, BuildError>)
        ensures
            r is Ok,
            vault_built_from(self, r.unwrap()),
    {
        Ok(
            VaultServerConfig {
                args: match self.args {
                    Some(a) => a,
                    None => Vec::new(),
                },
                env: match self.env {
                    Some(e) => e,
                    None => StringMap::new(),
                },
                handle: match self.handle {
                    Some(h) => h,
                    None => new_handle("vault"),
                },
                port: match self.port {
                    Some(p) => p,
                    None => 8200,
                },
                timeout: match self.timeout {
                    Some(t) => t,
                    None => 15,
                },
                token: match self.token {
                    Some(t) => t,
                    None => rand_string(16),
                },
                version: match self.version {
                    Some(v) => v,
                    None => "latest".to_owned(),
                },
            },
        )
    }
}

impl Config for VaultServerConfig {
    open spec fn spec_handle(&self) -> Seq<char> {
        self.handle@
    }

    open spec fn spec_composition(&self) -> ContainerSpec {
        ContainerSpec {
            args: self.args.deep_view(),
            env: self.env@.insert("VAULT_DEV_ROOT_TOKEN_ID"@, self.token@),
            handle: self.handle@,
            name: "vault"@,
            source: ImageSource::DockerHub,
            version: self.version@,
            ports: Some(seq![(8200u32, self.port)]),
            wait: Some(
                message_wait(
                    "Development mode should NOT be used in production installations!"@,
                    LogStream::Stdout,
                    self.timeout,
                ),
            ),
            bind_mounts: Map::empty(),
        }
    }

    open spec fn stored_in(s: ConfigStore) -> Option<VaultServerConfig> {
        s.vault
    }

    open spec fn spec_store(s: ConfigStore, c: VaultServerConfig) -> ConfigStore {
        ConfigStore { vault: Some(c), ..s }
    }

    fn composition(&self) -> (c: ContainerConfig) {
        let mut env = self.env.clone();
        env.insert("VAULT_DEV_ROOT_TOKEN_ID".to_owned(), self.token.clone());

        let mut ports: Vec<(u32, u32)> = Vec::new();
        ports.push((8200, self.port));

        let wait = WaitCondition {
            message: "Development mode should NOT be used in production installations!".to_owned(),
            source: LogStream::Stdout,
            timeout: self.timeout,
        };

        let c = ContainerConfig {
            args: self.args.clone(),
            env,
            handle: self.handle.clone(),
            name: "vault".to_owned(),
            source: ImageSource::DockerHub,
            version: self.version.clone(),
            ports: Some(ports),
            wait: Some(wait),
            bind_mounts: StringMap::new(),
        };
        proof {
            assert(c.args@ =~= self.args@);
            assert(c@.args =~= self.args.deep_view());
            assert(c@.ports.unwrap() =~= seq![(8200u32, self.port)]);
            assert(c@ =~= self.spec_composition());
        }
        c
    }

    fn handle(&self) -> &str {
        self.handle.as_str()
    }

    fn store(self, s: &mut ConfigStore) {
        s.vault = Some(self);
    }

    fn fetch(s: &ConfigStore) -> Option<&VaultServerConfig> {
        s.vault.as_ref()
    }

    proof fn lemma_store_retrieves(s: ConfigStore, c: VaultServerConfig) {
    }
}

/// A running instance of a Vault server.
///
/// The `token` field holds the root Vault token of the server. The server
/// address reachable from the host is given by `external_address`; other
/// containers should use `internal_address` instead.
pub struct VaultServer {
    pub external_port: u32,
    pub internal_port: u32,
    pub ip: String,
    pub token: String,
}

impl VaultServer {
    /// The external address in the form of localhost:{port}
    pub fn external_address(&self) -> (a: String)
        ensures
            a@ == spec_address("localhost"@, self.external_port),
    {
        format_address("localhost", self.external_port)
    }

    /// The external HTTP address
    pub fn external_url(&self) -> (a: String)
        ensures
            a@ == spec_url("http"@, "localhost"@, self.external_port),
    {
        format_url("http", "localhost", self.external_port)
    }

    /// The container internal address in the form of {ip}:{port}
    pub fn internal_address(&self) -> (a: String)
        ensures
            a@ == spec_address(self.ip@, self.internal_port),
    {
        format_address(self.ip.as_str(), self.internal_port)
    }

    /// The internal HTTP address
    pub fn internal_url(&self) -> (a: String)
        ensures
            a@ == spec_url("http"@, self.ip@, self.internal_port),
    {
        format_url("http", self.ip.as_str(), self.internal_port)
    }
}

impl Server for VaultServer {
    type Config = VaultServerConfig;

    open spec fn constructed_from(
        s: VaultServer,
        config: VaultServerConfig,
        container: RunningContainer,
    ) -> bool {
        s == (VaultServer {
            external_port: config.port,
            internal_port: 8200,
            ip: container.ip,
            token: config.token,
        })
    }

    fn new(config: &VaultServerConfig, container: &RunningContainer) -> (s: VaultServer) {
        VaultServer {
            external_port: config.port,
            internal_port: 8200,
            ip: container.ip.clone(),
            token: config.token.clone(),
        }
    }
}

} // verus!
