//! An Nginx server serving caller-provided web content.

use crate::common::{dec_digits, format_url, spec_url, u32_string};
use crate::registry::ConfigStore;
use crate::server::{
    generated_handle, message_wait, new_handle, BuildError, Config, ContainerConfig,
    ContainerSpec, ImageSource, LogStream, RunningContainer, Server, WaitCondition,
};
use crate::strmap::StringMap;
use vstd::prelude::*;
use vstd::string::StringExecFns;

verus! {

/// One piece of web content to serve: its file name, its media type, its
/// bytes, and the path it is served under.
pub struct WebserverContent {
    pub name: String,
    pub content_type: String,
    pub content: Vec<u8>,
    pub serve_path: String,
}

impl WebserverContent {
    pub fn builder() -> (b: WebserverContentBuilder)
        ensures
            b == WebserverContentBuilder::spec_empty(),
    {
        WebserverContentBuilder::default()
    }
}

/// Relates a content builder to the content it builds: every set field is
/// kept, and every unset field holds its default.
pub open spec fn content_built_from(b: WebserverContentBuilder, c: WebserverContent) -> bool {
    &&& (match b.name {
        Some(n) => c.name == n,
        None => c.name@ == Seq::<char>::empty(),
    })
    &&& (match b.content_type {
        Some(t) => c.content_type == t,
        None => c.content_type@ == "text/html"@,
    })
    &&& (match b.content {
        Some(d) => c.content == d,
        None => c.content@ == Seq::<u8>::empty(),
    })
    &&& (match b.serve_path {
        Some(p) => c.serve_path == p,
        None => c.serve_path@ == Seq::<char>::empty(),
    })
}

/// Builder for [`WebserverContent`].
pub struct WebserverContentBuilder {
    pub name: Option<String>,
    pub content_type: Option<String>,
    pub content: Option<Vec<u8>>,
    pub serve_path: Option<String>,
}

impl Default for WebserverContentBuilder {
    /// The empty builder: no field set.
    fn default() -> (b: Self)
        ensures
            b == Self::spec_empty(),
    {
        WebserverContentBuilder { name: None, content_type: None, content: None, serve_path: None }
    }
}

impl WebserverContentBuilder {
    /// The builder with no field set.
    pub open spec fn spec_empty() -> WebserverContentBuilder {
        WebserverContentBuilder { name: None, content_type: None, content: None, serve_path: None }
    }

    pub fn name(self, value: String) -> (b: Self)
        ensures
            b == (WebserverContentBuilder { name: Some(value), ..self }),
    {
        WebserverContentBuilder { name: Some(value), ..self }
    }

    pub fn content_type(self, value: String) -> (b: Self)
        ensures
            b == (WebserverContentBuilder { content_type: Some(value), ..self }),
    {
        WebserverContentBuilder { content_type: Some(value), ..self }
    }

    pub fn content(self, value: Vec<u8>) -> (b: Self)
        ensures
            b == (WebserverContentBuilder { content: Some(value), ..self }),
    {
        WebserverContentBuilder { content: Some(value), ..self }
    }

    pub fn serve_path(self, value: String) -> (b: Self)
        ensures
            b == (WebserverContentBuilder { serve_path: Some(value), ..self }),
    {
        WebserverContentBuilder { serve_path: Some(value), ..self }
    }

    /// Builds the content, filling every unset field with its default.
    /// Building cannot fail.
    pub fn build(self) -> (r: Result<WebserverContent, BuildError>)
        ensures
            r is Ok,
            content_built_from(self, r.unwrap()),
    {
        Ok(
            WebserverContent {
                name: match self.name {
                    Some(n) => n,
                    None => String::new(),
                },
                content_type: match self.content_type {
                    Some(t) => t,
                    None => "text/html".to_owned(),
                },
                content: match self.content {
                    Some(d) => d,
                    None => Vec::new(),
                },
                serve_path: match self.serve_path {
                    Some(p) => p,
                    None => String::new(),
                },
            },
        )
    }
}

#[verifier::external_type_specification]
#[verifier::external_body]
pub struct ExIoError(std::io::Error);

/// An error from preparing web content on disk.
#[derive(Debug)]
pub enum ContentError {
    /// A generated file path was not valid text.
    MalformedPath,
    /// Writing a generated file failed.
    IO(std::io::Error),
}

impl From<std::io::Error> for ContentError {
    fn from(inner: std::io::Error) -> (e: ContentError) {
        ContentError::IO(inner)
    }
}

impl vstd::std_specs::convert::FromSpecImpl<std::io::Error> for ContentError {
    open spec fn obeys_from_spec() -> bool {
        true
    }

    open spec fn from_spec(inner: std::io::Error) -> ContentError {
        ContentError::IO(inner)
    }
}

/// The in-container paths of a TLS certificate and its key.
pub struct TlsConfig {
    cert_path: String,
    key_path: String,
}

impl TlsConfig {
    /// The in-container path of the certificate.
    pub closed spec fn spec_cert_path(&self) -> Seq<char> {
        self.cert_path@
    }

    /// The in-container path of the key.
    pub closed spec fn spec_key_path(&self) -> Seq<char> {
        self.key_path@
    }

    /// Points TLS at the given certificate and key paths.
    pub fn new(cert_path: String, key_path: String) -> (t: TlsConfig)
        ensures
            t.spec_cert_path() == cert_path@,
            t.spec_key_path() == key_path@,
    {
        TlsConfig { cert_path, key_path }
    }

    /// The in-container path of the certificate.
    pub fn cert_path(&self) -> (p: &str)
        ensures
            p@ == self.spec_cert_path(),
    {
        self.cert_path.as_str()
    }

    /// The in-container path of the key.
    pub fn key_path(&self) -> (p: &str)
        ensures
            p@ == self.spec_key_path(),
    {
        self.key_path.as_str()
    }
}

/// Configuration for creating an Nginx server that serves caller-provided
/// content.
///
/// Content and configuration files are injected through `bind_mounts`; when
/// `tls` is set, the generated site configuration listens for HTTPS using
/// the given certificate. By default the server listens on port 8888,
/// exposed on the host port given by the `port` field.
pub struct NginxServerConfig {
    pub args: Vec<String>,
    pub env: StringMap,
    pub handle: String,
    pub port: u32,
    pub timeout: u16,
    pub version: String,
    pub bind_mounts: StringMap,
    pub tls: Option<TlsConfig>,
}

impl NginxServerConfig {
    pub fn builder() -> (b: NginxServerConfigBuilder)
        ensures
            b == NginxServerConfigBuilder::spec_empty(),
    {
        NginxServerConfigBuilder::default()
    }

    /// Registers a bind mount of `local_path` at `remote_path`; mounts are
    /// keyed by their target path, so mounting the same target again
    /// replaces the earlier mount.
    pub fn add_mount(&mut self, local_path: &str, remote_path: &str)
        ensures
            final(self).bind_mounts@ == old(self).bind_mounts@.insert(remote_path@, local_path@),
            final(self).args == old(self).args,
            final(self).env == old(self).env,
            final(self).handle == old(self).handle,
            final(self).port == old(self).port,
            final(self).timeout == old(self).timeout,
            final(self).version == old(self).version,
            final(self).tls == old(self).tls,
    {
        self.bind_mounts.insert(remote_path.to_owned(), local_path.to_owned());
    }

    /// Mounts the file at `local_path` as the site configuration file
    /// `name`, inside the server's configuration directory.
    pub fn add_config_file(&mut self, name: &str, local_path: &str)
        ensures
            final(self).bind_mounts@ == old(self).bind_mounts@.insert(
                "/etc/nginx/conf.d/"@ + name@,
                local_path@,
            ),
            final(self).args == old(self).args,
            final(self).env == old(self).env,
            final(self).handle == old(self).handle,
            final(self).port == old(self).port,
            final(self).timeout == old(self).timeout,
            final(self).version == old(self).version,
            final(self).tls == old(self).tls,
    {
        let mut remote = "/etc/nginx/conf.d/".to_owned();
        remote.append(name);
        self.add_mount(local_path, remote.as_str());
    }

    /// Shadows the upstream image's default site. Idempotent, since bind
    /// mounts are keyed by their target path.
    pub fn shadow_upstream_default_site(&mut self)
        ensures
            final(self).bind_mounts@ == old(self).bind_mounts@.insert(
                "/etc/nginx/conf.d/"@ + "default.conf"@,
                "/dev/null"@,
            ),
            final(self).args == old(self).args,
            final(self).env == old(self).env,
            final(self).handle == old(self).handle,
            final(self).port == old(self).port,
            final(self).timeout == old(self).timeout,
            final(self).version == old(self).version,
            final(self).tls == old(self).tls,
    {
        self.add_config_file("default.conf", "/dev/null");
    }

    /// The site configuration text that serves `content`: one server block
    /// listening on the container port, answering `serve_path` with the
    /// mounted content file, over TLS when `tls` is set. Writing the file
    /// and mounting it happens at the test harness edge.
    pub fn content_site_config(&self, content: &WebserverContent) -> (s: String)
        ensures
            s@ == spec_site_config(
                8888,
                content.serve_path@,
                content.content_type@,
                "/usr/share/nginx/html/"@ + content.name@,
                self.tls,
            ),
    {
        let alias = content_alias(content.name.as_str());
        let mut s = "server {\n    listen ".to_owned();
        let port = u32_string(8888);
        s.append(port.as_str());
        s.append(" ");
        let options = listen_options(&self.tls);
        s.append(options.as_str());
        s.append("    location =");
        s.append(content.serve_path.as_str());
        s.append(" {\n        default_type ");
        s.append(content.content_type.as_str());
        s.append(";\n        alias ");
        s.append(alias.as_str());
        s.append(";\n    }\n\n    error_page  405     =200 $uri;\n}\n");
        proof {
            assert(s@ =~= spec_site_config(
                8888,
                content.serve_path@,
                content.content_type@,
                "/usr/share/nginx/html/"@ + content.name@,
                self.tls,
            ));
        }
        s
    }
}

/// The in-container path the content file `name` is mounted at.
pub fn content_alias(name: &str) -> (s: String)
    ensures
        s@ == "/usr/share/nginx/html/"@ + name@,
{
    let mut s = "/usr/share/nginx/html/".to_owned();
    s.append(name);
    s
}

/// The options of the generated listen directive: plain, or TLS with the
/// configured certificate.
pub open spec fn spec_listen_options(tls: Option<TlsConfig>) -> Seq<char> {
    match tls {
        Some(t) => "ssl default_server;\n    server_name localhost;\n    ssl_certificate     "@
            + t.spec_cert_path() + ";\n    ssl_certificate_key "@ + t.spec_key_path() + ";\n"@,
        None => "default_server;\n"@,
    }
}

/// The generated site configuration text.
pub open spec fn spec_site_config(
    port: u32,
    serve_path: Seq<char>,
    content_type: Seq<char>,
    alias: Seq<char>,
    tls: Option<TlsConfig>,
) -> Seq<char> {
    "server {\n    listen "@ + dec_digits(port as nat) + " "@ + spec_listen_options(tls)
        + "    location ="@ + serve_path + " {\n        default_type "@ + content_type
        + ";\n        alias "@ + alias + ";\n    }\n\n    error_page  405     =200 $uri;\n}\n"@
}

/// Builds the options of the listen directive.
fn listen_options(tls: &Option<TlsConfig>) -> (s: String)
    ensures
        s@ == spec_listen_options(*tls),
{
    match tls {
        Some(t) => {
            let mut s =
                "ssl default_server;\n    server_name localhost;\n    ssl_certificate     "
                .to_owned();
            s.append(t.cert_path());
            s.append(";\n    ssl_certificate_key ");
            s.append(t.key_path());
            s.append(";\n");
            proof {
                assert(s@ =~= spec_listen_options(*tls));
            }
            s
        },
        None => "default_server;\n".to_owned(),
    }
}

/// Relates a builder to the configuration it builds: every set field is
/// kept, and every unset field holds its default.
pub open spec fn webserver_built_from(
    b: NginxServerConfigBuilder,
    c: NginxServerConfig,
) -> bool {
    &&& (match b.args {
        Some(a) => c.args == a,
        None => c.args@ == Seq::<String>::empty(),
    })
    &&& (match b.env {
        Some(e) => c.env == e,
        None => c.env@ == Map::<Seq<char>, Seq<char>>::empty(),
    })
    &&& (match b.handle {
        Some(h) => c.handle == h,
        None => generated_handle("nginx"@, c.handle@, 10),
    })
    &&& (match b.port {
        Some(p) => c.port == p,
        None => c.port == 8888,
    })
    &&& (match b.timeout {
        Some(t) => c.timeout == t,
        None => c.timeout == 10,
    })
    &&& (match b.version {
        Some(v) => c.version == v,
        None => c.version@ == "latest"@,
    })
    &&& (match b.bind_mounts {
        Some(m) => c.bind_mounts == m,
        None => c.bind_mounts@ == Map::<Seq<char>, Seq<char>>::empty(),
    })
    &&& (match b.tls {
        Some(t) => c.tls == t,
        None => c.tls is None,
    })
}

/// Builder for [`NginxServerConfig`]: every field is optional and falls back
/// to its default at build time.
pub struct NginxServerConfigBuilder {
    pub args: Option<Vec<String>>,
    pub env: Option<StringMap>,
    pub handle: Option<String>,
    pub port: Option<u32>,
    pub timeout: Option<u16>,
    pub version: Option<String>,
    pub bind_mounts: Option<StringMap>,
    pub tls: Option<Option<TlsConfig>>,
}

impl Default for NginxServerConfigBuilder {
    /// The empty builder: no field set.
    fn default() -> (b: Self)
        ensures
            b == Self::spec_empty(),
    {
        NginxServerConfigBuilder {
            args: None,
            env: None,
            handle: None,
            port: None,
            timeout: None,
            version: None,
            bind_mounts: None,
            tls: None,
        }
    }
}

impl NginxServerConfigBuilder {
    /// The builder with no field set.
    pub open spec fn spec_empty() -> NginxServerConfigBuilder {
        NginxServerConfigBuilder {
            args: None,
            env: None,
            handle: None,
            port: None,
            timeout: None,
            version: None,
            bind_mounts: None,
            tls: None,
        }
    }

    pub fn args(self, value: Vec<String>) -> (b: Self)
        ensures
            b == (NginxServerConfigBuilder { args: Some(value), ..self }),
    {
        NginxServerConfigBuilder { args: Some(value), ..self }
    }

    pub fn env(self, value: StringMap) -> (b: Self)
        ensures
            b == (NginxServerConfigBuilder { env: Some(value), ..self }),
    {
        NginxServerConfigBuilder { env: Some(value), ..self }
    }

    pub fn handle(self, value: String) -> (b: Self)
        ensures
            b == (NginxServerConfigBuilder { handle: Some(value), ..self }),
    {
        NginxServerConfigBuilder { handle: Some(value), ..self }
    }

    pub fn port(self, value: u32) -> (b: Self)
        ensures
            b == (NginxServerConfigBuilder { port: Some(value), ..self }),
    {
        NginxServerConfigBuilder { port: Some(value), ..self }
    }

    pub fn timeout(self, value: u16) -> (b: Self)
        ensures
            b == (NginxServerConfigBuilder { timeout: Some(value), ..self }),
    {
        NginxServerConfigBuilder { timeout: Some(value), ..self }
    }

    pub fn version(self, value: String) -> (b: Self)
        ensures
            b == (NginxServerConfigBuilder { version: Some(value), ..self }),
    {
        NginxServerConfigBuilder { version: Some(value), ..self }
    }

    pub fn bind_mounts(self, value: StringMap) -> (b: Self)
        ensures
            b == (NginxServerConfigBuilder { bind_mounts: Some(value), ..self }),
    {
        NginxServerConfigBuilder { bind_mounts: Some(value), ..self }
    }

    pub fn tls(self, value: Option<TlsConfig>) -> (b: Self)
        ensures
            b == (NginxServerConfigBuilder { tls: Some(value), ..self }),
    {
        NginxServerConfigBuilder { tls: Some(value), ..self }
    }

    /// Builds the configuration, filling every unset field with its default.
    /// Building cannot fail.
    pub fn build(self) -> (r: Result<NginxServerConfig, BuildError>)
        ensures
            r is Ok,
            webserver_built_from(self, r.unwrap()),
    {
        Ok(
            NginxServerConfig {
                args: match self.args {
                    Some(a) => a,
                    None => Vec::new(),
                },
                env: match self.env {
                    Some(e) => e,
                    None => StringMap::new(),
                },
                handle: match self.handle {
                    Some(h) => h,
                    None => new_handle("nginx"),
                },
                port: match self.port {
                    Some(p) => p,
                    None => 8888,
                },
                timeout: match self.timeout {
                    Some(t) => t,
                    None => 10,
                },
                version: match self.version {
                    Some(v) => v,
                    None => "latest".to_owned(),
                },
                bind_mounts: match self.bind_mounts {
                    Some(m) => m,
                    None => StringMap::new(),
                },
                tls: match self.tls {
                    Some(t) => t,
                    None => None,
                },
            },
        )
    }
}

impl Config for NginxServerConfig {
    open spec fn spec_handle(&self) -> Seq<char> {
        self.handle@
    }

    open spec fn spec_composition(&self) -> ContainerSpec {
        ContainerSpec {
            args: Seq::empty(),
            env: Map::empty(),
            handle: self.handle@,
            name: "nginx"@,
            source: ImageSource::DockerHub,
            version: self.version@,
            ports: Some(seq![(8888u32, self.port)]),
            wait: Some(message_wait("start worker process"@, LogStream::Stderr, self.timeout)),
            bind_mounts: self.bind_mounts@,
        }
    }

    open spec fn stored_in(s: ConfigStore) -> Option<NginxServerConfig> {
        s.webserver
    }

    open spec fn spec_store(s: ConfigStore, c: NginxServerConfig) -> ConfigStore {
        ConfigStore { webserver: Some(c), ..s }
    }

    fn composition(&self) -> (c: ContainerConfig) {
        let mut ports: Vec<(u32, u32)> = Vec::new();
        ports.push((8888, self.port));

        let wait = WaitCondition {
            message: "start worker process".to_owned(),
            source: LogStream::Stderr,
            timeout: self.timeout,
        };

        let c = ContainerConfig {
            args: Vec::new(),
            env: StringMap::new(),
            handle: self.handle.clone(),
            name: "nginx".to_owned(),
            source: ImageSource::DockerHub,
            version: self.version.clone(),
            ports: Some(ports),
            wait: Some(wait),
            bind_mounts: self.bind_mounts.clone(),
        };
        proof {
            assert(c@.args =~= Seq::<Seq<char>>::empty());
            assert(c@.ports.unwrap() =~= seq![(8888u32, self.port)]);
            assert(c@ =~= self.spec_composition());
        }
        c
    }

    fn handle(&self) -> &str {
        self.handle.as_str()
    }

    fn store(self, s: &mut ConfigStore) {
        s.webserver = Some(self);
    }

    fn fetch(s: &ConfigStore) -> Option<&NginxServerConfig> {
        s.webserver.as_ref()
    }

    proof fn lemma_store_retrieves(s: ConfigStore, c: NginxServerConfig) {
    }
}

/// A running instance of an Nginx server serving caller-provided content.
///
/// The server address reachable from the host is given by
/// `external_address`; other containers should use `internal_address`
/// instead. When the configuration carried TLS, the URLs use HTTPS.
pub struct NginxServer {
    pub external_port: u32,
    pub internal_port: u32,
    pub ip: String,
    pub with_tls: bool,
}

impl NginxServer {
    /// The scheme the server answers on: https when TLS is configured.
    pub open spec fn spec_scheme(&self) -> Seq<char> {
        if self.with_tls {
            "https"@
        } else {
            "http"@
        }
    }

    /// The external address in the form of localhost:{port}
    pub fn external_address(&self) -> (a: String)
        ensures
            a@ == crate::common::spec_address("localhost"@, self.external_port),
    {
        crate::common::format_address("localhost", self.external_port)
    }

    /// The external URL
    pub fn external_url(&self) -> (a: String)
        ensures
            a@ == spec_url(self.spec_scheme(), "localhost"@, self.external_port),
    {
        if self.with_tls {
            format_url("https", "localhost", self.external_port)
        } else {
            format_url("http", "localhost", self.external_port)
        }
    }

    /// The container internal address in the form of {ip}:{port}
    pub fn internal_address(&self) -> (a: String)
        ensures
            a@ == crate::common::spec_address(self.ip@, self.internal_port),
    {
        crate::common::format_address(self.ip.as_str(), self.internal_port)
    }

    /// The internal URL
    pub fn internal_url(&self) -> (a: String)
        ensures
            a@ == spec_url(self.spec_scheme(), self.ip@, self.internal_port),
    {
        if self.with_tls {
            format_url("https", self.ip.as_str(), self.internal_port)
        } else {
            format_url("http", self.ip.as_str(), self.internal_port)
        }
    }
}

impl Server for NginxServer {
    type Config = NginxServerConfig;

    open spec fn constructed_from(
        s: NginxServer,
        config: NginxServerConfig,
        container: RunningContainer,
    ) -> bool {
        s == (NginxServer {
            external_port: config.port,
            internal_port: 8888,
            ip: container.ip,
            with_tls: config.tls is Some,
        })
    }

    fn new(config: &NginxServerConfig, container: &RunningContainer) -> (s: NginxServer) {
        NginxServer {
            external_port: config.port,
            internal_port: 8888,
            ip: container.ip.clone(),
            with_tls: match &config.tls {
                Some(_) => true,
                None => false,
            },
        }
    }
}

} // verus!
