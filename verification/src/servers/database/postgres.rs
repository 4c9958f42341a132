//! A PostgreSQL server.

use crate::common::{
    format_address, format_auth_url, format_url, rand_string, spec_address, spec_auth_url,
    spec_url,
};
use crate::registry::ConfigStore;
use crate::server::{
    alphanumeric_of_len, generated_handle, message_wait, new_handle, BuildError, Config,
    ContainerConfig, ContainerSpec, ImageSource, LogStream, RunningContainer, Server,
    WaitCondition,
};
use crate::strmap::StringMap;
use vstd::prelude::*;

verus! {

/// Configuration for creating a PostgreSQL server.
///
/// The superuser is `postgres`; its password is carried in the `password`
/// field and generated at build time when not set explicitly. By default the
/// PostgreSQL server listens on port 5432, exposed on the host port given by
/// the `port` field.
pub struct PostgresServerConfig {
    pub args: Vec<String>,
    pub env: StringMap,
    pub handle: String,
    pub password: String,
    pub port: u32,
    pub timeout: u16,
    pub version: String,
}

impl PostgresServerConfig {
    pub fn builder() -> (b: PostgresServerConfigBuilder)
        ensures
            b == PostgresServerConfigBuilder::spec_empty(),
    {
        PostgresServerConfigBuilder::default()
    }
}

/// Relates a builder to the configuration it builds: every set field is
/// kept, and every unset field holds its default.
pub open spec fn postgres_built_from(
    b: PostgresServerConfigBuilder,
    c: PostgresServerConfig,
) -> bool {
    &&& (match b.args {
        Some(a) => c.args == a,
        None => c.args@ == Seq::<String>::empty(),
    })
    &&& (match b.env {
        Some(e) => c.env == e,
        None => c.env@ == Map::<Seq<char>, Seq<char>>::empty(),
    })
    &&& (match b.handle {
        Some(h) => c.handle == h,
        None => generated_handle("postgres"@, c.handle@, 10),
    })
    &&& (match b.password {
        Some(p) => c.password == p,
        None => alphanumeric_of_len(c.password@, 16),
    })
    &&& (match b.port {
        Some(p) => c.port == p,
        None => c.port == 8200,
    })
    &&& (match b.timeout {
        Some(t) => c.timeout == t,
        None => c.timeout == 15,
    })
    &&& (match b.version {
        Some(v) => c.version == v,
        None => c.version@ == "latest"@,
    })
}

/// Builder for [`PostgresServerConfig`]: every field is optional and falls
/// back to its default at build time.
pub struct PostgresServerConfigBuilder {
    pub args: Option<Vec<String>>,
    pub env: Option<StringMap>,
    pub handle: Option<String>,
    pub password: Option<String>,
    pub port: Option<u32>,
    pub timeout: Option<u16>,
    pub version: Option<String>,
}

impl Default for PostgresServerConfigBuilder {
    /// The empty builder: no field set.
    fn default() -> (b: Self)
        ensures
            b == Self::spec_empty(),
    {
        PostgresServerConfigBuilder {
            args: None,
            env: None,
            handle: None,
            password: None,
            port: None,
            timeout: None,
            version: None,
        }
    }
}

impl PostgresServerConfigBuilder {
    /// The builder with no field set.
    pub open spec fn spec_empty() -> PostgresServerConfigBuilder {
        PostgresServerConfigBuilder {
            args: None,
            env: None,
            handle: None,
            password: None,
            port: None,
            timeout: None,
            version: None,
        }
    }

    pub fn args(self, value: Vec<String>) -> (b: Self)
        ensures
            b == (PostgresServerConfigBuilder { args: Some(value), ..self }),
    {
        PostgresServerConfigBuilder { args: Some(value), ..self }
    }

    pub fn env(self, value: StringMap) -> (b: Self)
        ensures
            b == (PostgresServerConfigBuilder { env: Some(value), ..self }),
    {
        PostgresServerConfigBuilder { env: Some(value), ..self }
    }

    pub fn handle(self, value: String) -> (b: Self)
        ensures
            b == (PostgresServerConfigBuilder { handle: Some(value), ..self }),
    {
        PostgresServerConfigBuilder { handle: Some(value), ..self }
    }

    pub fn password(self, value: String) -> (b: Self)
        ensures
            b == (PostgresServerConfigBuilder { password: Some(value), ..self }),
    {
        PostgresServerConfigBuilder { password: Some(value), ..self }
    }

    pub fn port(self, value: u32) -> (b: Self)
        ensures
            b == (PostgresServerConfigBuilder { port: Some(value), ..self }),
    {
        PostgresServerConfigBuilder { port: Some(value), ..self }
    }

    pub fn timeout(self, value: u16) -> (b: Self)
        ensures
            b == (PostgresServerConfigBuilder { timeout: Some(value), ..self }),
    {
        PostgresServerConfigBuilder { timeout: Some(value), ..self }
    }

    pub fn version(self, value: String) -> (b: Self)
        ensures
            b == (PostgresServerConfigBuilder { version: Some(value), ..self }),
    {
        PostgresServerConfigBuilder { version: Some(value), ..self }
    }

    /// Builds the configuration, filling every unset field with its default.
    /// Building cannot fail.
    pub fn build(self) -> (r: Result<PostgresServerConfig, BuildError>)
        ensures
            r is Ok,
            postgres_built_from(self, r.unwrap()),
    {
        Ok(
            PostgresServerConfig {
                args: match self.args {
                    Some(a) => a,
                    None => Vec::new(),
                },
                env: match self.env {
                    Some(e) => e,
                    None => StringMap::new(),
                },
                handle: match self.handle {
                    Some(h) => h,
                    None => new_handle("postgres"),
                },
                password: match self.password {
                    Some(p) => p,
                    None => rand_string(16),
                },
                port: match self.port {
                    Some(p) => p,
                    None => 8200,
                },
                timeout: match self.timeout {
                    Some(t) => t,
                    None => 15,
                },
                version: match self.version {
                    Some(v) => v,
                    None => "latest".to_owned(),
                },
            },
        )
    }
}

impl Config for PostgresServerConfig {
    open spec fn spec_handle(&self) -> Seq<char> {
        self.handle@
    }

    open spec fn spec_composition(&self) -> ContainerSpec {
        ContainerSpec {
            args: self.args.deep_view() + seq!["-c"@, "listen_addresses=*"@],
            env: self.env@.insert("POSTGRES_PASSWORD"@, self.password@),
            handle: self.handle@,
            name: "postgres"@,
            source: ImageSource::DockerHub,
            version: self.version@,
            ports: Some(seq![(5432u32, self.port)]),
            wait: Some(
                message_wait(
                    "database system is ready to accept connections"@,
                    LogStream::Stderr,
                    self.timeout,
                ),
            ),
            bind_mounts: Map::empty(),
        }
    }

    open spec fn stored_in(s: ConfigStore) -> Option<PostgresServerConfig> {
        s.postgres
    }

    open spec fn spec_store(s: ConfigStore, c: PostgresServerConfig) -> ConfigStore {
        ConfigStore { postgres: Some(c), ..s }
    }

    fn composition(&self) -> (c: ContainerConfig) {
        let mut env = self.env.clone();
        env.insert("POSTGRES_PASSWORD".to_owned(), self.password.clone());

        let mut args = self.args.clone();
        args.push("-c".to_owned());
        args.push("listen_addresses=*".to_owned());

        let mut ports: Vec<(u32, u32)> = Vec::new();
        ports.push((5432, self.port));

        let wait = WaitCondition {
            message: "database system is ready to accept connections".to_owned(),
            source: LogStream::Stderr,
            timeout: self.timeout,
        };

        let c = ContainerConfig {
            args,
            env,
            handle: self.handle.clone(),
            name: "postgres".to_owned(),
            source: ImageSource::DockerHub,
            version: self.version.clone(),
            ports: Some(ports),
            wait: Some(wait),
            bind_mounts: StringMap::new(),
        };
        proof {
            assert(c.args.deep_view() =~= self.args.deep_view() + seq![
                "-c"@,
                "listen_addresses=*"@,
            ]);
            assert(c@.ports.unwrap() =~= seq![(5432u32, self.port)]);
            assert(c@ =~= self.spec_composition());
        }
        c
    }

    fn handle(&self) -> &str {
        self.handle.as_str()
    }

    fn store(self, s: &mut ConfigStore) {
        s.postgres = Some(self);
    }

    fn fetch(s: &ConfigStore) -> Option<&PostgresServerConfig> {
        s.postgres.as_ref()
    }

    proof fn lemma_store_retrieves(s: ConfigStore, c: PostgresServerConfig) {
    }
}

/// A running instance of a PostgreSQL server.
///
/// The server address reachable from the host is given by
/// `external_address`; other containers should use `internal_address`
/// instead. The URL variants with `auth` embed the username and password.
pub struct PostgresServer {
    pub external_port: u32,
    pub internal_port: u32,
    pub ip: String,
    pub password: String,
    pub username: String,
}

impl PostgresServer {
    /// The external address in the form of localhost:{port}
    pub fn external_address(&self) -> (a: String)
        ensures
            a@ == spec_address("localhost"@, self.external_port),
    {
        format_address("localhost", self.external_port)
    }

    /// The external libpq URL with the username/password embedded in the URL
    pub fn external_auth_url(&self) -> (a: String)
        ensures
            a@ == spec_auth_url(
                "postgresql"@,
                self.username@,
                self.password@,
                "localhost"@,
                self.external_port,
            ),
    {
        format_auth_url(
            "postgresql",
            self.username.as_str(),
            self.password.as_str(),
            "localhost",
            self.external_port,
        )
    }

    /// The external libpq URL
    pub fn external_url(&self) -> (a: String)
        ensures
            a@ == spec_url("postgresql"@, "localhost"@, self.external_port),
    {
        format_url("postgresql", "localhost", self.external_port)
    }

    /// The container internal address in the form of {ip}:{port}
    pub fn internal_address(&self) -> (a: String)
        ensures
            a@ == spec_address(self.ip@, self.internal_port),
    {
        format_address(self.ip.as_str(), self.internal_port)
    }

    /// The internal libpq URL with the username/password embedded in the URL
    pub fn internal_auth_url(&self) -> (a: String)
        ensures
            a@ == spec_auth_url(
                "postgresql"@,
                self.username@,
                self.password@,
                self.ip@,
                self.internal_port,
            ),
    {
        format_auth_url(
            "postgresql",
            self.username.as_str(),
            self.password.as_str(),
            self.ip.as_str(),
            self.internal_port,
        )
    }

    /// The internal libpq URL
    pub fn internal_url(&self) -> (a: String)
        ensures
            a@ == spec_url("postgresql"@, self.ip@, self.internal_port),
    {
        format_url("postgresql", self.ip.as_str(), self.internal_port)
    }
}

impl Server for PostgresServer {
    type Config = PostgresServerConfig;

    open spec fn constructed_from(
        s: PostgresServer,
        config: PostgresServerConfig,
        container: RunningContainer,
    ) -> bool {
        &&& s.external_port == config.port
        &&& s.internal_port == 5432
        &&& s.ip == container.ip
        &&& s.password == config.password
        &&& s.username@ == "postgres"@
    }

    fn new(config: &PostgresServerConfig, container: &RunningContainer) -> (s: PostgresServer) {
        PostgresServer {
            external_port: config.port,
            internal_port: 5432,
            ip: container.ip.clone(),
            password: config.password.clone(),
            username: "postgres".to_owned(),
        }
    }
}

} // verus!
