use dockertest_server::server::RunningContainer;
use dockertest_server::servers::auth::oidc::{OIDCServer, OIDCServerConfig};
use dockertest_server::servers::hashi::consul::{ConsulServer, ConsulServerConfig};
use dockertest_server::servers::hashi::vault::{VaultServer, VaultServerConfig};
use dockertest_server::test::{Operations, TestRun};
use dockertest_server::{Test, TestInstance};

#[test]
fn same_type_registration_last_write_wins() {
    let first = VaultServerConfig::builder()
        .handle("vault-first".to_string())
        .token("firsttoken".to_string())
        .build()
        .unwrap();
    let second = VaultServerConfig::builder()
        .handle("vault-second".to_string())
        .token("secondtoken".to_string())
        .build()
        .unwrap();

    let mut test = Test::new();
    test.register(first);
    test.register(second);

    // The descriptor list is append-only: both containers are requested.
    assert_eq!(test.compositions.len(), 2);
    assert_eq!(test.compositions[0].handle, "vault-first");
    assert_eq!(test.compositions[1].handle, "vault-second");

    // Only the most recent configuration resolves.
    let (_, _, configs) = test.start();
    let mut op = Operations::new();
    op.add(RunningContainer { handle: "vault-first".to_string(), ip: "10.0.0.1".to_string() });
    op.add(RunningContainer { handle: "vault-second".to_string(), ip: "10.0.0.2".to_string() });
    let instance = TestInstance::new(configs, op);
    let server: VaultServer = instance.try_server().unwrap();
    assert_eq!(server.token, "secondtoken");
    assert_eq!(server.internal_address(), "10.0.0.2:8200");
}

#[test]
fn distinct_types_coexist() {
    let vault = VaultServerConfig::builder().handle("vault-h".to_string()).build().unwrap();
    let consul = ConsulServerConfig::builder().handle("consul-h".to_string()).build().unwrap();

    let mut test = Test::new();
    test.register(vault);
    test.register(consul);
    assert_eq!(test.compositions.len(), 2);

    let (_, _, configs) = test.start();
    let mut op = Operations::new();
    op.add(RunningContainer { handle: "vault-h".to_string(), ip: "10.0.0.1".to_string() });
    op.add(RunningContainer { handle: "consul-h".to_string(), ip: "10.0.0.2".to_string() });
    let instance = TestInstance::new(configs, op);
    assert!(instance.try_server::<VaultServer>().is_some());
    assert!(instance.try_server::<ConsulServer>().is_some());
}

#[test]
fn unregistered_server_is_not_resolvable() {
    let test = Test::new();
    let (_, _, configs) = test.start();
    let instance = TestInstance::new(configs, Operations::new());
    assert!(instance.try_server::<VaultServer>().is_none());
}

#[test]
fn other_registration_does_not_resolve() {
    let consul = ConsulServerConfig::builder().handle("consul-h".to_string()).build().unwrap();
    let mut test = Test::new();
    test.register(consul);
    let (_, _, configs) = test.start();
    let mut op = Operations::new();
    op.add(RunningContainer { handle: "consul-h".to_string(), ip: "10.0.0.2".to_string() });
    let instance = TestInstance::new(configs, op);
    assert!(instance.try_server::<VaultServer>().is_none());
    assert!(instance.try_server::<ConsulServer>().is_some());
}

#[test]
fn registered_without_ready_container_is_not_resolvable() {
    let vault = VaultServerConfig::builder().handle("vault-h".to_string()).build().unwrap();
    let mut test = Test::new();
    test.register(vault);
    let (_, _, configs) = test.start();
    let instance = TestInstance::new(configs, Operations::new());
    assert!(instance.try_server::<VaultServer>().is_none());
}

#[test]
fn resolving_twice_gives_equal_observables() {
    let vault = VaultServerConfig::builder()
        .handle("vault-h".to_string())
        .port(9200)
        .build()
        .unwrap();
    let mut test = Test::new();
    test.register(vault);
    let (_, _, configs) = test.start();
    let mut op = Operations::new();
    op.add(RunningContainer { handle: "vault-h".to_string(), ip: "10.0.0.9".to_string() });
    let instance = TestInstance::new(configs, op);
    let a: VaultServer = instance.try_server().unwrap();
    let b: VaultServer = instance.try_server().unwrap();
    assert_eq!(a.external_address(), b.external_address());
    assert_eq!(a.internal_url(), b.internal_url());
    assert_eq!(a.token, b.token);
}

#[test]
fn scenario_single_registration_resolves_external_address() {
    let config = OIDCServerConfig::builder()
        .handle("oidc-h".to_string())
        .port(9080)
        .build()
        .unwrap();
    let mut test = Test::new();
    test.register(config);

    let (mut run, compositions, configs) = test.start();
    assert_eq!(run.requested, 1);
    assert_eq!(compositions.len(), 1);

    // Every requested container became ready; the body runs exactly once.
    run.on_all_ready();
    assert_eq!(run.started, 1);
    assert_eq!(run.body_runs, 1);

    let mut op = Operations::new();
    op.add(RunningContainer { handle: "oidc-h".to_string(), ip: "172.17.0.2".to_string() });
    let instance = TestInstance::new(configs, op);
    let server: OIDCServer = instance.server();
    assert_eq!(server.external_address(), "localhost:9080");
    assert_eq!(server.external_url(), "http://localhost:9080");

    // Whatever the body's outcome, the run always goes through teardown.
    run.on_body_finished(true);
    run.on_torn_down(true);
    assert!(run.torn_down);
    assert!(run.succeeded());
}

#[test]
fn scenario_zero_registrations_complete_cleanly() {
    let test = Test::new();
    let (mut run, compositions, _) = test.start();
    assert_eq!(compositions.len(), 0);
    assert_eq!(run.requested, 0);

    run.on_all_ready();
    assert_eq!(run.started, 0);
    assert_eq!(run.body_runs, 1);
    run.on_body_finished(true);
    run.on_torn_down(true);
    assert!(run.succeeded());
}

#[test]
fn startup_failure_skips_body_and_still_tears_down() {
    let mut run = TestRun::begin(3);
    run.on_startup_failure(2);
    assert_eq!(run.body_runs, 0);
    assert_eq!(run.available, 0);
    assert_eq!(run.started, 2);
    run.on_torn_down(true);
    assert!(run.torn_down);
    assert!(!run.succeeded());
}

#[test]
fn failed_body_still_tears_down() {
    let mut run = TestRun::begin(1);
    run.on_all_ready();
    run.on_body_finished(false);
    run.on_torn_down(true);
    assert!(run.torn_down);
    assert!(!run.succeeded());
}

#[test]
fn teardown_failure_does_not_mask_outcome() {
    let mut run = TestRun::begin(1);
    run.on_all_ready();
    run.on_body_finished(true);
    run.on_torn_down(false);
    assert!(run.succeeded());
}
