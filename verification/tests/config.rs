use dns_ingress::config::names::{is_ascii_dns_name, is_ascii_dns_suffix};
use dns_ingress::config::removed::reject_removed_v1_fields;
use dns_ingress::config::validation::{BindAddresses, IpAddress, SocketAddress};
use dns_ingress::config::{AppConfig, CertificateConfig};

const LOCALHOST: u32 = 0x7f00_0001;

fn v4(ip: u32, port: u16) -> Option<SocketAddress> {
    Some(SocketAddress { ip: IpAddress::V4(ip), port })
}

/// What the bind addresses of a configuration denote where all of them are 0.0.0.0.
fn any_address(config: &AppConfig) -> BindAddresses {
    BindAddresses {
        dot: v4(0, config.servers.dot.port),
        doh: v4(0, config.servers.doh.port),
        doq: v4(0, config.servers.doq.port),
        doh3: v4(0, config.servers.doh3.port),
        healthcheck: v4(0, config.servers.healthcheck.port),
    }
}

fn validate(config: &AppConfig) -> Result<(), String> {
    config.validate(&any_address(config), &vec![])
}

fn without_dns_listeners() -> AppConfig {
    let mut config = AppConfig::default();
    config.servers.dot.enabled = false;
    config.servers.doh.enabled = false;
    config.servers.doq.enabled = false;
    config.servers.doh3.enabled = false;
    config
}

fn with_certificate() -> AppConfig {
    let mut config = AppConfig::default();
    config.tls.default = Some(CertificateConfig {
        cert_file: "cert.pem".to_string(),
        key_file: "key.pem".to_string(),
    });
    config
}

#[test]
fn test_default_config() {
    let config = AppConfig::default();
    assert_eq!(config.rewrite.base_domains.len(), 2);
    assert!(config.rewrite.base_domains.contains(&"example.com".to_string()));
    assert!(config.rewrite.base_domains.contains(&"example.org".to_string()));
    assert_eq!(config.rewrite.target_suffix, ".example.cn");
}

#[test]
fn default_settings_are_the_documented_ones() {
    let config = AppConfig::default();
    assert!(config.servers.dot.enabled && config.servers.doh.enabled && config.servers.doq.enabled);
    assert!(!config.servers.doh3.enabled);
    assert_eq!(config.servers.doh.bind_address, "0.0.0.0");
    assert_eq!(config.servers.doh3.port, 443);
    assert_eq!(config.servers.healthcheck.port, 8080);
    assert_eq!(config.servers.healthcheck.path, "/health");
    assert_eq!(config.upstream.doh3.port, 443);
    assert_eq!(config.limits.max_connections_per_listener, 1024);
    assert_eq!(config.limits.max_inflight_requests_per_connection, 64);
    assert_eq!(config.limits.max_upstream_pool_entries, 256);
    assert_eq!(config.limits.transaction_timeout_seconds, 30);
    assert_eq!(config.logging.level, "info");
    assert_eq!(config.logging.file, None);
    assert!(config.logging.rotation && !config.logging.json);
    assert_eq!(config.logging.max_file_size, 10_485_760);
    assert_eq!(config.logging.max_files, 5);
    assert!(config.tls.default.is_none() && config.tls.certs.is_empty());
}

#[test]
fn test_upstream_config() {
    let config = AppConfig::default();
    assert_eq!(config.upstream.dot.port, 853);
    assert_eq!(config.upstream.doq.port, 853);
}

#[test]
fn test_tcp_and_udp_may_share_dns_port() {
    let mut config = AppConfig::default();
    config.servers.doh.enabled = false;
    config.servers.doh3.enabled = false;
    config.servers.healthcheck.enabled = false;
    config.tls.default = Some(CertificateConfig {
        cert_file: "cert.pem".to_string(),
        key_file: "key.pem".to_string(),
    });
    assert!(validate(&config).is_ok());
}

#[test]
fn listeners_of_one_transport_may_not_share_a_port() {
    let mut config = with_certificate();
    config.servers.doh.port = 853;
    assert_eq!(
        validate(&config),
        Err("Port conflict: 853 is already used by another server".to_string())
    );
    let mut apart = any_address(&config);
    apart.doh = v4(LOCALHOST, 853);
    assert_eq!(config.validate(&apart, &vec![]), Ok(()));
    config.servers.healthcheck.port = 853;
    assert_eq!(
        validate(&config),
        Err("Port conflict: 853 is already used by another server".to_string())
    );
}

#[test]
fn bind_addresses_must_be_socket_addresses() {
    let mut config = with_certificate();
    config.servers.doq.bind_address = "nowhere".to_string();
    let mut binds = any_address(&config);
    binds.doq = None;
    assert_eq!(
        config.validate(&binds, &vec![]),
        Err("Invalid bind address for doq: nowhere:853".to_string())
    );
    config.servers.doq.enabled = false;
    assert_eq!(config.validate(&binds, &vec![]), Ok(()));
    binds.healthcheck = None;
    assert_eq!(
        config.validate(&binds, &vec![]),
        Err("Invalid bind address for healthcheck: 0.0.0.0:8080".to_string())
    );
}

#[test]
fn missing_files_are_reported() {
    let mut config = with_certificate();
    config.tls.certs.insert(
        "example.com".to_string(),
        CertificateConfig { cert_file: "a.pem".to_string(), key_file: "b.pem".to_string() },
    );
    let binds = any_address(&config);
    let missing = |path: &str| config.validate(&binds, &vec![path.to_string()]);
    assert_eq!(
        missing("cert.pem"),
        Err("Default certificate file not found: cert.pem".to_string())
    );
    assert_eq!(missing("key.pem"), Err("Default key file not found: key.pem".to_string()));
    assert_eq!(
        missing("a.pem"),
        Err("Certificate file not found for example.com: a.pem".to_string())
    );
    assert_eq!(missing("b.pem"), Err("Key file not found for example.com: b.pem".to_string()));
    assert_eq!(missing("other.pem"), Ok(()));
}

#[test]
fn a_dns_listener_needs_a_certificate() {
    let config = AppConfig::default();
    assert_eq!(
        validate(&config),
        Err("At least one TLS certificate is required when a DNS ingress listener is enabled"
            .to_string())
    );
    assert_eq!(validate(&without_dns_listeners()), Ok(()));
}

#[test]
fn paths_must_be_absolute() {
    let mut config = with_certificate();
    config.upstream.doh3.path = "dns-query".to_string();
    assert_eq!(
        validate(&config),
        Err("doh3 upstream path must start with '/'".to_string())
    );
    let mut config = with_certificate();
    config.servers.doh.path = String::new();
    assert_eq!(validate(&config), Err("doh listener path must start with '/'".to_string()));
}

#[test]
fn rewriting_needs_domains_and_a_suffix() {
    let mut config = without_dns_listeners();
    config.rewrite.base_domains = vec![];
    assert_eq!(
        validate(&config),
        Err("At least one base domain must be configured for SNI rewriting".to_string())
    );
    let mut config = without_dns_listeners();
    config.rewrite.target_suffix = "example.cn".to_string();
    assert_eq!(
        validate(&config),
        Err("Target suffix must start with '.' (e.g., '.example.cn')".to_string())
    );
    let mut config = without_dns_listeners();
    config.rewrite.target_suffix = ".Example.cn".to_string();
    assert_eq!(
        validate(&config),
        Err("Rewrite domains must be lowercase ASCII DNS names".to_string())
    );
}

#[test]
fn test_legacy_fixed_upstream_is_rejected() {
    let toml_content = r#"
[rewrite]
base_domains = ["example.org"]
target_suffix = ".example.cn"
[servers.dot]
enabled = false
bind_address = "127.0.0.1"
port = 853
[servers.doh]
enabled = false
bind_address = "127.0.0.1"
port = 443
[servers.doq]
enabled = false
bind_address = "127.0.0.1"
port = 853
[servers.doh3]
enabled = false
bind_address = "127.0.0.1"
port = 443
[upstream]
default = "8.8.8.8:853"
"#;
    assert!(reject_removed_v1_fields(toml_content).is_err());
    assert_eq!(
        reject_removed_v1_fields(toml_content).unwrap_err(),
        "upstream.default was removed in v2; upstream hostnames are always derived from rewrite"
    );
}

#[test]
fn test_legacy_mtls_fields_are_rejected() {
    let content = r#"
[rewrite]
base_domains = ["example.org"]
target_suffix = ".example.cn"
[servers.dot]
enabled = false
bind_address = "127.0.0.1"
port = 853
[servers.doh]
enabled = false
bind_address = "127.0.0.1"
port = 443
[servers.doq]
enabled = false
bind_address = "127.0.0.1"
port = 853
[servers.doh3]
enabled = false
bind_address = "127.0.0.1"
port = 443
[upstream.dot]
port = 853
[upstream.doh]
port = 443
[upstream.doq]
port = 853
[upstream.doh3]
port = 443
[tls]
require_client_cert = true
"#;
    let error = reject_removed_v1_fields(content).unwrap_err();
    assert!(error.contains("mTLS"));
    assert_eq!(
        error,
        "tls.require_client_cert was removed in v2; inbound mTLS is not supported"
    );
}

#[test]
fn removed_settings_are_told_apart_from_others() {
    assert_eq!(reject_removed_v1_fields("[rewrite]\ntarget_suffix = \".a.b\"\n"), Ok(()));
    assert_eq!(reject_removed_v1_fields(""), Ok(()));
    assert_eq!(
        reject_removed_v1_fields("[rewrite]\nrewrite_failure_strategy = \"passthrough\"\n"),
        Err("rewrite.rewrite_failure_strategy was removed in v2; unmatched domains are always rejected"
            .to_string())
    );
    assert_eq!(
        reject_removed_v1_fields("[tls]\nclient_key_file = \"k\"\nca_file = \"c\"\n"),
        Err("tls.ca_file was removed in v2; inbound mTLS is not supported".to_string())
    );
    assert_eq!(
        reject_removed_v1_fields("= no toml"),
        Err("Failed to parse config file".to_string())
    );
}

#[test]
fn test_resource_limits_must_be_positive() {
    let mut config = AppConfig::default();
    config.servers.dot.enabled = false;
    config.servers.doh.enabled = false;
    config.servers.doq.enabled = false;
    config.servers.doh3.enabled = false;
    config.limits.max_inflight_requests_per_connection = 0;
    assert!(validate(&config).is_err());
    assert_eq!(
        validate(&config),
        Err("All resource limits must be greater than zero".to_string())
    );
}

#[test]
fn test_rewrite_domains_require_valid_dns_labels() {
    for invalid in ["a..example", "-edge.example", "edge-.example", ".example"] {
        let mut config = AppConfig::default();
        config.servers.dot.enabled = false;
        config.servers.doh.enabled = false;
        config.servers.doq.enabled = false;
        config.servers.doh3.enabled = false;
        config.rewrite.base_domains = vec![invalid.to_string()];
        assert!(validate(&config).is_err(), "{invalid} must be rejected");
    }
}

#[test]
fn dns_names_are_judged_by_their_labels() {
    assert!(is_ascii_dns_name("a"));
    assert!(is_ascii_dns_name("a-1.example"));
    assert!(!is_ascii_dns_name(""));
    assert!(!is_ascii_dns_name("A.example"));
    assert!(!is_ascii_dns_name("a_b.example"));
    let long = "a".repeat(63);
    assert!(is_ascii_dns_name(&long));
    assert!(!is_ascii_dns_name(&format!("{long}a")));
    assert!(is_ascii_dns_name(&format!("{long}.{long}.{long}.{}", "a".repeat(61))));
    assert!(!is_ascii_dns_name(&format!("{long}.{long}.{long}.{}", "a".repeat(62))));
    assert!(is_ascii_dns_suffix(".example.cn"));
    assert!(!is_ascii_dns_suffix("example.cn"));
    assert!(!is_ascii_dns_suffix("."));
}
