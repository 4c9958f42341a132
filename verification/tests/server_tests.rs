use dockertest_server::server::{Config, LogStream, RunningContainer, Server};
use dockertest_server::servers::auth::oidc::OIDCServerConfig;
use dockertest_server::servers::cloud::localstack::LocalStackServerConfig;
use dockertest_server::servers::database::postgres::{PostgresServer, PostgresServerConfig};
use dockertest_server::servers::database::redis::{RedisServer, RedisServerConfig};
use dockertest_server::servers::hashi::consul::ConsulServerConfig;
use dockertest_server::servers::hashi::counting::CountingServerConfig;
use dockertest_server::servers::hashi::vault::{VaultServer, VaultServerConfig};
use dockertest_server::servers::web;
use dockertest_server::servers::webserver;
use dockertest_server::servers::webserver::nginx::ContentError;
use dockertest_server::strmap::StringMap;

#[test]
fn vault_builder_defaults() {
    let config = VaultServerConfig::builder().build().unwrap();
    assert!(config.args.is_empty());
    assert_eq!(config.env.entries().len(), 0);
    assert_eq!(config.port, 8200);
    assert_eq!(config.timeout, 15);
    assert_eq!(config.version, "latest");
    assert_eq!(config.token.len(), 16);
    assert!(config.token.chars().all(|c| c.is_ascii_alphanumeric()));
    assert_eq!(config.handle.len(), "vault".len() + 10);
    assert!(config.handle.starts_with("vault"));
}

#[test]
fn vault_builder_overrides() {
    let config = VaultServerConfig::builder()
        .port(9200)
        .version("1.8.2".to_string())
        .token("roottoken".to_string())
        .handle("vault-test".to_string())
        .timeout(30)
        .build()
        .unwrap();
    assert_eq!(config.port, 9200);
    assert_eq!(config.version, "1.8.2");
    assert_eq!(config.token, "roottoken");
    assert_eq!(config.handle, "vault-test");
    assert_eq!(config.timeout, 30);
}

#[test]
fn vault_composition_fields() {
    let mut env = StringMap::new();
    env.insert("VAULT_LOG_LEVEL".to_string(), "debug".to_string());
    let config = VaultServerConfig::builder()
        .port(9200)
        .token("roottoken".to_string())
        .handle("vault-test".to_string())
        .env(env)
        .build()
        .unwrap();
    let c = config.composition();
    assert_eq!(c.name, "vault");
    assert_eq!(c.handle, "vault-test");
    assert_eq!(c.version, "latest");
    assert_eq!(c.ports, Some(vec![(8200, 9200)]));
    assert_eq!(c.env.get("VAULT_DEV_ROOT_TOKEN_ID"), Some(&"roottoken".to_string()));
    assert_eq!(c.env.get("VAULT_LOG_LEVEL"), Some(&"debug".to_string()));
    assert_eq!(c.bind_mounts.entries().len(), 0);
    let wait = c.wait.unwrap();
    assert_eq!(
        wait.message,
        "Development mode should NOT be used in production installations!"
    );
    assert!(matches!(wait.source, LogStream::Stdout));
    assert_eq!(wait.timeout, 15);
}

#[test]
fn postgres_composition_appends_listen_args() {
    let config = PostgresServerConfig::builder()
        .args(vec!["-N".to_string(), "500".to_string()])
        .password("pw".to_string())
        .port(6432)
        .build()
        .unwrap();
    let c = config.composition();
    assert_eq!(
        c.args,
        vec![
            "-N".to_string(),
            "500".to_string(),
            "-c".to_string(),
            "listen_addresses=*".to_string(),
        ]
    );
    assert_eq!(c.name, "postgres");
    assert_eq!(c.ports, Some(vec![(5432, 6432)]));
    assert_eq!(c.env.get("POSTGRES_PASSWORD"), Some(&"pw".to_string()));
    let wait = c.wait.unwrap();
    assert_eq!(wait.message, "database system is ready to accept connections");
    assert!(matches!(wait.source, LogStream::Stderr));
}

#[test]
fn adapter_defaults_and_images() {
    let c = RedisServerConfig::builder().build().unwrap().composition();
    assert_eq!(c.name, "redis");
    assert_eq!(c.ports, Some(vec![(6379, 6379)]));
    assert_eq!(c.wait.unwrap().message, "Ready to accept connections tcp");

    let c = ConsulServerConfig::builder().build().unwrap().composition();
    assert_eq!(c.name, "consul");
    assert_eq!(c.ports, Some(vec![(8500, 9500)]));
    assert_eq!(c.wait.unwrap().message, "Synced node info");

    let c = CountingServerConfig::builder().build().unwrap().composition();
    assert_eq!(c.name, "hashicorp/counting-service");
    assert_eq!(c.ports, Some(vec![(9001, 9500)]));
    assert_eq!(c.version, "0.0.2");

    let c = OIDCServerConfig::builder().build().unwrap().composition();
    assert_eq!(c.name, "ghcr.io/navikt/mock-oauth2-server");
    assert_eq!(c.ports, Some(vec![(8080, 8200)]));
    assert_eq!(c.version, "0.3.5");
    assert_eq!(c.wait.unwrap().message, "started server on address");

    let c = LocalStackServerConfig::builder().build().unwrap().composition();
    assert_eq!(c.name, "localstack/localstack");
    assert_eq!(c.ports, Some(vec![(4566, 4566)]));
    assert_eq!(c.wait.unwrap().message, "Ready.");
}

#[test]
fn web_nginx_composition_keeps_args_and_env() {
    let mut env = StringMap::new();
    env.insert("NGINX_HOST".to_string(), "localhost".to_string());
    let config = web::nginx::NginxServerConfig::builder()
        .args(vec!["-g".to_string(), "daemon off;".to_string()])
        .env(env)
        .port(8082)
        .version("1.21.3-alpine".to_string())
        .build()
        .unwrap();
    let c = config.composition();
    assert_eq!(c.name, "nginx");
    assert_eq!(c.version, "1.21.3-alpine");
    assert_eq!(c.args, vec!["-g".to_string(), "daemon off;".to_string()]);
    assert_eq!(c.env.get("NGINX_HOST"), Some(&"localhost".to_string()));
    assert_eq!(c.ports, Some(vec![(80, 8082)]));
    let wait = c.wait.unwrap();
    assert_eq!(
        wait.message,
        "/docker-entrypoint.sh: Configuration complete; ready for start up"
    );
    assert!(matches!(wait.source, LogStream::Stdout));
}

#[test]
fn webserver_nginx_composition_keeps_mounts_only() {
    let mut config = webserver::nginx::NginxServerConfig::builder()
        .args(vec!["ignored".to_string()])
        .port(8888)
        .build()
        .unwrap();
    config.add_mount("/tmp/hello", "/usr/share/nginx/html/hello");
    let c = config.composition();
    assert_eq!(c.name, "nginx");
    assert!(c.args.is_empty());
    assert_eq!(c.env.entries().len(), 0);
    assert_eq!(c.ports, Some(vec![(8888, 8888)]));
    assert_eq!(
        c.bind_mounts.get("/usr/share/nginx/html/hello"),
        Some(&"/tmp/hello".to_string())
    );
    let wait = c.wait.unwrap();
    assert_eq!(wait.message, "start worker process");
    assert!(matches!(wait.source, LogStream::Stderr));
    assert_eq!(wait.timeout, 10);
}

#[test]
fn webserver_nginx_config_file_mounts() {
    let mut config = webserver::nginx::NginxServerConfig::builder().build().unwrap();
    config.add_config_file("site.conf", "/tmp/site.conf");
    assert_eq!(
        config.bind_mounts.get("/etc/nginx/conf.d/site.conf"),
        Some(&"/tmp/site.conf".to_string())
    );
    config.shadow_upstream_default_site();
    assert_eq!(
        config.bind_mounts.get("/etc/nginx/conf.d/default.conf"),
        Some(&"/dev/null".to_string())
    );
}

#[test]
fn webserver_nginx_site_config_text() {
    let config = webserver::nginx::NginxServerConfig::builder().build().unwrap();
    let content = webserver::nginx::WebserverContent::builder()
        .name("hello".to_string())
        .content_type("application/json".to_string())
        .serve_path("/hello".to_string())
        .build()
        .unwrap();
    let text = config.content_site_config(&content);
    let expected = "server {\n    listen 8888 default_server;\n    location =/hello {\n        default_type application/json;\n        alias /usr/share/nginx/html/hello;\n    }\n\n    error_page  405     =200 $uri;\n}\n";
    assert_eq!(text, expected);
}

#[test]
fn webserver_nginx_site_config_text_with_tls() {
    let mut config = webserver::nginx::NginxServerConfig::builder().build().unwrap();
    config.tls = Some(webserver::nginx::TlsConfig::new(
        "/srv/webserver.crt".to_string(),
        "/srv/webserver.key".to_string(),
    ));
    let content = webserver::nginx::WebserverContent::builder()
        .name("hello".to_string())
        .serve_path("/hello".to_string())
        .build()
        .unwrap();
    let text = config.content_site_config(&content);
    assert!(text.contains("listen 8888 ssl default_server;"));
    assert!(text.contains("ssl_certificate     /srv/webserver.crt;"));
    assert!(text.contains("ssl_certificate_key /srv/webserver.key;"));
    assert!(text.contains("default_type text/html;"));
}

#[test]
fn vault_server_construction_round_trip() {
    let config = VaultServerConfig::builder()
        .port(9200)
        .token("roottoken".to_string())
        .build()
        .unwrap();
    let container = RunningContainer {
        handle: config.handle().to_string(),
        ip: "172.17.0.2".to_string(),
    };
    let a = <VaultServer as Server>::new(&config, &container);
    let b = <VaultServer as Server>::new(&config, &container);
    assert_eq!(a.external_address(), b.external_address());
    assert_eq!(a.internal_address(), b.internal_address());
    assert_eq!(a.external_url(), b.external_url());
    assert_eq!(a.internal_url(), b.internal_url());
    assert_eq!(a.token, b.token);
    assert_eq!(a.external_address(), "localhost:9200");
    assert_eq!(a.internal_address(), "172.17.0.2:8200");
    assert_eq!(a.internal_url(), "http://172.17.0.2:8200");
    assert_eq!(a.token, "roottoken");
}

#[test]
fn postgres_server_urls() {
    let config = PostgresServerConfig::builder()
        .port(6432)
        .password("pw".to_string())
        .build()
        .unwrap();
    let container = RunningContainer {
        handle: config.handle().to_string(),
        ip: "172.17.0.3".to_string(),
    };
    let s = <PostgresServer as Server>::new(&config, &container);
    assert_eq!(s.username, "postgres");
    assert_eq!(s.external_url(), "postgresql://localhost:6432");
    assert_eq!(s.external_auth_url(), "postgresql://postgres:pw@localhost:6432");
    assert_eq!(s.internal_auth_url(), "postgresql://postgres:pw@172.17.0.3:5432");
}

#[test]
fn redis_server_urls() {
    let config = RedisServerConfig::builder().port(9898).build().unwrap();
    let container = RunningContainer {
        handle: config.handle().to_string(),
        ip: "172.17.0.4".to_string(),
    };
    let s = <RedisServer as Server>::new(&config, &container);
    assert_eq!(s.external_url(), "redis://localhost:9898");
    assert_eq!(s.internal_url(), "redis://172.17.0.4:6379");
}

#[test]
fn web_nginx_server_addresses() {
    let config = web::nginx::NginxServerConfig::builder().port(8082).build().unwrap();
    let container = RunningContainer {
        handle: config.handle().to_string(),
        ip: "172.17.0.5".to_string(),
    };
    let a = <web::nginx::NginxServer as Server>::new(&config, &container);
    let b = <web::nginx::NginxServer as Server>::new(&config, &container);
    assert_eq!(a.address, "http://172.17.0.5:8082");
    assert_eq!(a.local_address, "http://localhost:8082");
    assert_eq!(a.port, 8082);
    assert_eq!(a.address, b.address);
    assert_eq!(a.local_address, b.local_address);
}

#[test]
fn webserver_nginx_server_tls_scheme() {
    let mut config = webserver::nginx::NginxServerConfig::builder().port(8443).build().unwrap();
    config.tls = Some(webserver::nginx::TlsConfig::new(
        "/srv/webserver.crt".to_string(),
        "/srv/webserver.key".to_string(),
    ));
    let container = RunningContainer {
        handle: config.handle().to_string(),
        ip: "172.17.0.6".to_string(),
    };
    let s = <webserver::nginx::NginxServer as Server>::new(&config, &container);
    assert!(s.with_tls);
    assert_eq!(s.external_url(), "https://localhost:8443");
    assert_eq!(s.internal_url(), "https://172.17.0.6:8888");
    assert_eq!(s.external_address(), "localhost:8443");
}

#[test]
fn generate_composition_fields() {
    let mut env = StringMap::new();
    env.insert("KEY".to_string(), "value".to_string());
    let c = dockertest_server::server::generate_composition(
        vec!["serve".to_string()],
        env,
        "handle-1",
        "example/image",
        dockertest_server::server::ImageSource::DockerHub,
        20,
        "2.0",
        Some(vec![(80, 8080), (443, 8443)]),
        Some("listening"),
    );
    assert_eq!(c.args, vec!["serve".to_string()]);
    assert_eq!(c.env.get("KEY"), Some(&"value".to_string()));
    assert_eq!(c.handle, "handle-1");
    assert_eq!(c.name, "example/image");
    assert_eq!(c.version, "2.0");
    assert_eq!(c.ports, Some(vec![(80, 8080), (443, 8443)]));
    assert_eq!(c.bind_mounts.entries().len(), 0);
    let wait = c.wait.unwrap();
    assert_eq!(wait.message, "listening");
    assert!(matches!(wait.source, LogStream::Stdout));
    assert_eq!(wait.timeout, 20);

    let c = dockertest_server::server::generate_composition(
        Vec::new(),
        StringMap::new(),
        "handle-2",
        "example/image",
        dockertest_server::server::ImageSource::Local,
        5,
        "latest",
        None,
        None,
    );
    assert!(c.ports.is_none());
    assert!(c.wait.is_none());
}

#[test]
fn content_error_from_io_error() {
    let io = std::io::Error::new(std::io::ErrorKind::Other, "write failed");
    let e = ContentError::from(io);
    assert!(matches!(e, ContentError::IO(_)));
    assert!(matches!(ContentError::MalformedPath, ContentError::MalformedPath));
}
