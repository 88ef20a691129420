use dns_ingress::app::{App, ReadyReport, StartupFiles};
use dns_ingress::config::validation::{BindAddresses, IpAddress, SocketAddress};
use dns_ingress::config::AppConfig;
use dns_ingress::error::DnsProxyError;
use dns_ingress::readers::healthcheck::handle_healthcheck;
use dns_ingress::readers::listener::ServerKind;
use dns_ingress::tasks::{ShutdownAction, ShutdownEvent};

fn binds(config: &AppConfig) -> BindAddresses {
    let at = |port: u16| Some(SocketAddress { ip: IpAddress::V4(0), port });
    BindAddresses {
        dot: at(config.servers.dot.port),
        doh: at(config.servers.doh.port),
        doq: at(config.servers.doq.port),
        doh3: at(config.servers.doh3.port),
        healthcheck: at(config.servers.healthcheck.port),
    }
}

fn files(config: &AppConfig) -> StartupFiles {
    StartupFiles {
        binds: binds(config),
        missing: vec![],
        native: vec![],
        authorities: None,
        default_files: None,
        files: vec![],
    }
}

fn validate(config: &AppConfig) -> Result<(), String> {
    config.validate(&binds(config), &vec![])
}

fn without_dns_listeners() -> AppConfig {
    let mut config = AppConfig::default();
    config.servers.dot.enabled = false;
    config.servers.doh.enabled = false;
    config.servers.doq.enabled = false;
    config.servers.doh3.enabled = false;
    config
}

#[test]
fn test_app_start_all_disabled() {
    let mut config = AppConfig::default();
    config.servers.dot.enabled = false;
    config.servers.doh.enabled = false;
    config.servers.doq.enabled = false;
    config.servers.doh3.enabled = false;
    config.servers.healthcheck.enabled = false;

    assert!(validate(&config).is_ok());

    let files = files(&config);
    let mut app = App::new(config);
    assert!(app.start(&files).is_ok());
    assert_eq!(app.awaited_server(), None);
    assert!(app.finish_start().is_ok());
    assert!(app.ready);

    app.wait_for_shutdown();
    assert!(!app.ready);
}

#[test]
fn test_config_validation() {
    let mut config = AppConfig::default();

    config.servers.dot.enabled = false;
    config.servers.doh.enabled = false;
    config.servers.doq.enabled = false;
    config.servers.doh3.enabled = false;
    config.servers.healthcheck.enabled = false;
    config.tls = Default::default();

    assert!(validate(&config).is_ok());

    config.servers.dot.port = 443;
    config.servers.doh.port = 443;
    config.servers.dot.enabled = true;
    config.servers.doh.enabled = true;
    assert!(validate(&config).is_err());
}

#[test]
fn test_sni_rewrite_flow() {
    let config = AppConfig::default();
    let app = App::new(config);

    let test_sni = "www.example.org";
    let result = app.rewriter.rewrite(test_sni);

    assert!(result.is_some());
    let rewrite_result = result.unwrap();
    assert_eq!(rewrite_result.original, test_sni);
    assert_eq!(rewrite_result.prefix, "www");
    assert_eq!(rewrite_result.target_hostname, "www.example.cn");
}

#[test]
fn test_upstream_config_parsing() {
    let config = AppConfig::default();
    assert_eq!(config.upstream.dot.port, 853);
    assert_eq!(config.upstream.doq.port, 853);
    assert_eq!(config.upstream.doh.path, "/dns-query");
}

#[test]
fn test_healthcheck_server_start() {
    let mut config = AppConfig::default();
    config.servers.dot.enabled = false;
    config.servers.doh.enabled = false;
    config.servers.doq.enabled = false;
    config.servers.doh3.enabled = false;
    config.servers.healthcheck.enabled = true;
    config.servers.healthcheck.port = 18080;

    assert!(validate(&config).is_ok());

    let files = files(&config);
    let mut app = App::new(config);
    assert!(app.start(&files).is_ok());
    assert_eq!(app.awaited_server(), Some(ServerKind::Healthcheck));
    assert!(app.receive_report(ReadyReport::Bound).is_ok());
    assert!(app.finish_start().is_ok());

    for path in ["/live", "/ready", "/health"] {
        let response = handle_healthcheck(
            "GET",
            path,
            &app.config.servers.healthcheck.path,
            &app.metrics,
            "0.000000",
            app.ready,
        );
        assert_eq!(response.status, 200, "{} was not ready", path);
    }

    app.wait_for_shutdown();
}

#[test]
fn listeners_are_started_in_a_fixed_order() {
    let mut config = AppConfig::default();
    config.servers.doh3.enabled = true;
    assert_eq!(
        dns_ingress::app::servers_to_start(&config.servers),
        vec![
            ServerKind::Healthcheck,
            ServerKind::Dot,
            ServerKind::Doh,
            ServerKind::Doq,
            ServerKind::Doh3,
        ]
    );
    config.servers.doh.enabled = false;
    config.servers.healthcheck.enabled = false;
    assert_eq!(
        dns_ingress::app::servers_to_start(&config.servers),
        vec![ServerKind::Dot, ServerKind::Doq, ServerKind::Doh3]
    );
}

#[test]
fn a_listener_that_is_not_bound_ends_the_start() {
    let config = without_dns_listeners();
    let files = files(&config);
    let mut app = App::new(config);
    app.start(&files).unwrap();
    let failed = ReadyReport::Failed(DnsProxyError::Io("in use".to_string()));
    let mut abandoned = app.receive_report(failed).unwrap_err();
    assert_eq!(abandoned.error.message(), "IO error: in use");
    assert!(app.cancelled && !app.ready);
    assert_eq!(abandoned.shutdown.step(ShutdownEvent::Closed), ShutdownAction::Join);
    assert_eq!(abandoned.shutdown.step(ShutdownEvent::Ended), ShutdownAction::Done);

    let config = without_dns_listeners();
    let mut app = App::new(config);
    app.start(&files).unwrap();
    assert_eq!(
        app.receive_report(ReadyReport::Lost).unwrap_err().error.message(),
        "Protocol error: healthcheck server exited before reporting listener readiness"
    );
}

#[test]
fn a_listener_that_goes_down_makes_the_proxy_unready() {
    let config = without_dns_listeners();
    let files = files(&config);
    let mut app = App::new(config);
    app.start(&files).unwrap();
    app.receive_report(ReadyReport::Bound).unwrap();
    app.server_exited(&Err(DnsProxyError::Io("gone".to_string())));
    assert_eq!(
        app.finish_start().unwrap_err().error.message(),
        "Protocol error: a listener exited during startup"
    );

    let mut app = App::new(without_dns_listeners());
    app.start(&files).unwrap();
    app.receive_report(ReadyReport::Bound).unwrap();
    app.finish_start().unwrap();
    app.server_exited(&Ok(()));
    assert!(app.ready);
    app.server_exited(&Err(DnsProxyError::Io("gone".to_string())));
    assert!(!app.ready && app.failed);

    let mut app = App::new(without_dns_listeners());
    app.shutdown();
    app.server_exited(&Err(DnsProxyError::Io("gone".to_string())));
    assert!(!app.failed);
}

#[test]
fn settings_are_checked_before_anything_is_started() {
    let config = AppConfig::default();
    let files = files(&config);
    let mut app = App::new(config);
    assert_eq!(
        app.start(&files).unwrap_err().message(),
        "At least one TLS certificate is required when a DNS ingress listener is enabled"
    );
}

#[test]
fn a_second_shutdown_has_nothing_to_wait_for() {
    let config = without_dns_listeners();
    let files = files(&config);
    let mut app = App::new(config);
    app.start(&files).unwrap();
    app.receive_report(ReadyReport::Bound).unwrap();
    app.finish_start().unwrap();
    assert_eq!(app.tasks, vec![ServerKind::Healthcheck]);
    let mut first = app.shutdown();
    assert_eq!((first.left, first.grace_seconds), (1, 10));
    assert!(app.cancelled && !app.ready && app.tasks.is_empty());
    assert_eq!(first.step(ShutdownEvent::Closed), ShutdownAction::Join);
    assert_eq!(first.step(ShutdownEvent::DeadlinePassed), ShutdownAction::Abort);
    assert_eq!(first.step(ShutdownEvent::Ended), ShutdownAction::Done);
    let mut second = app.wait_for_shutdown();
    assert_eq!(second.left, 0);
    assert_eq!(second.step(ShutdownEvent::Closed), ShutdownAction::Done);
}

#[test]
fn listeners_record_in_the_counters_of_the_proxy() {
    let mut app = App::new(without_dns_listeners());
    app.metrics.record_sni_rewrite();
    app.metrics.record_request(true, 1, 2, 3);
    let counters = app.metrics.snapshot();
    assert_eq!((counters.sni_rewrites, counters.total_requests), (1, 1));
}
