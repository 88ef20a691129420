//! The configuration: its sections and their defaults.
pub mod names;
pub mod removed;
pub mod validation;

use crate::text_map::TextMap;
use vstd::prelude::*;

verus! {

/// The texts of a list of strings.
pub open spec fn texts(list: Seq<String>) -> Seq<Seq<char>> {
    Seq::new(list.len(), |i: int| list[i]@)
}

/// The whole configuration.
#[derive(Debug, Clone)]
pub struct AppConfig {
    pub rewrite: RewriteConfig,
    pub servers: ServersConfig,
    pub upstream: UpstreamConfig,
    pub tls: TlsConfig,
    pub logging: LoggingConfig,
    pub limits: LimitsConfig,
}

/// How a server name is mapped to an upstream host name.
#[derive(Debug, Clone)]
pub struct RewriteConfig {
    /// Base domains to match (e.g., ["example.com", "example.org"]).
    /// The rewriter takes the prefix from host names below one of them.
    pub base_domains: Vec<String>,
    /// Target suffix for upstream (e.g., ".example.cn").
    /// The prefix and this suffix together are the target host name.
    pub target_suffix: String,
}

impl RewriteConfig {
    /// A copy of the settings.
    pub fn duplicate(&self) -> (r: Self)
        ensures
            texts(r.base_domains@) == texts(self.base_domains@),
            r.target_suffix@ == self.target_suffix@,
    {
        let mut base_domains: Vec<String> = Vec::new();
        let mut i: usize = 0;
        while i < self.base_domains.len()
            invariant
                i <= self.base_domains@.len(),
                base_domains@.len() == i,
                forall|k: int| 0 <= k < i ==> (#[trigger] base_domains@[k])@
                    == self.base_domains@[k]@,
            decreases self.base_domains@.len() - i,
        {
            base_domains.push(self.base_domains[i].as_str().to_owned());
            i += 1;
        }
        assert(texts(base_domains@) == texts(self.base_domains@));
        RewriteConfig { base_domains, target_suffix: self.target_suffix.as_str().to_owned() }
    }
}

/// The listeners.
#[derive(Debug, Clone)]
pub struct ServersConfig {
    pub dot: ServerPortConfig,
    pub doh: ServerPortConfig,
    pub doq: ServerPortConfig,
    pub doh3: ServerPortConfig,
    pub healthcheck: HealthcheckConfig,
}

/// One DNS listener.
#[derive(Debug, Clone)]
pub struct ServerPortConfig {
    pub enabled: bool,
    pub bind_address: String,
    pub port: u16,
    /// HTTP request path for DoH/DoH3 listeners. Ignored by DoT and DoQ.
    pub path: String,
}

/// The health check listener.
#[derive(Debug, Clone)]
pub struct HealthcheckConfig {
    pub enabled: bool,
    pub bind_address: String,
    pub port: u16,
    pub path: String,
}

/// The endpoints of the upstream.
#[derive(Debug, Clone)]
pub struct UpstreamConfig {
    pub dot: DnsUpstreamConfig,
    pub doh: HttpUpstreamConfig,
    pub doq: DnsUpstreamConfig,
    pub doh3: HttpUpstreamConfig,
}

/// The destination host name always comes from the rewriter. These settings hold
/// only protocol endpoint details, so that a stale fixed upstream address cannot
/// bypass domain routing.
#[derive(Debug, Clone)]
pub struct DnsUpstreamConfig {
    pub port: u16,
}

/// The port and the request path of an HTTP upstream.
#[derive(Debug, Clone)]
pub struct HttpUpstreamConfig {
    pub port: u16,
    pub path: String,
}

/// The certificates of the listeners and the trust of the upstream side.
#[derive(Debug, Clone)]
pub struct TlsConfig {
    /// Default certificate (used when no domain-specific one is found).
    pub default: Option<CertificateConfig>,
    /// Domain-specific certificates, by domain name.
    pub certs: TextMap<CertificateConfig>,
    /// A PEM bundle of private authorities that upstream certificates may come from.
    pub upstream_ca_file: Option<String>,
}

/// A certificate file and its key file.
#[derive(Debug, Clone)]
pub struct CertificateConfig {
    /// Certificate file path (PEM format).
    pub cert_file: String,
    /// Private key file path (PEM format).
    pub key_file: String,
}

/// Where and how much is logged.
#[derive(Debug, Clone)]
pub struct LoggingConfig {
    /// Log level: trace, debug, info, warn, error (default: info).
    pub level: String,
    /// Log file path (optional; without it logs go to stdout/stderr).
    pub file: Option<String>,
    /// JSON format for logs (default: false).
    pub json: bool,
    /// Log rotation (default: true).
    pub rotation: bool,
    /// Maximum log file size in bytes before rotation (default: 10MB).
    pub max_file_size: u64,
    /// Number of log files to keep (default: 5).
    pub max_files: usize,
}

/// Bounded resource usage for publicly exposed listeners. Zone transfers are
/// streamed and therefore need no total-byte limit.
#[derive(Debug, Clone)]
pub struct LimitsConfig {
    pub max_connections_per_listener: usize,
    pub max_inflight_requests_per_connection: usize,
    pub max_upstream_pool_entries: usize,
    pub transaction_timeout_seconds: u64,
}

pub const DNS_PORT: u16 = 853;

pub const HTTPS_PORT: u16 = 443;

pub fn default_dns_port() -> (r: u16)
    ensures
        r == DNS_PORT,
{
    DNS_PORT
}

pub fn default_https_port() -> (r: u16)
    ensures
        r == HTTPS_PORT,
{
    HTTPS_PORT
}

pub fn default_doh_path() -> (r: String)
    ensures
        r@ == "/dns-query"@,
{
    "/dns-query".to_owned()
}

pub fn default_max_connections_per_listener() -> (r: usize)
    ensures
        r == 1024,
{
    1024
}

pub fn default_max_inflight_requests_per_connection() -> (r: usize)
    ensures
        r == 64,
{
    64
}

pub fn default_max_upstream_pool_entries() -> (r: usize)
    ensures
        r == 256,
{
    256
}

pub fn default_transaction_timeout_seconds() -> (r: u64)
    ensures
        r == 30,
{
    30
}

pub fn default_log_level() -> (r: String)
    ensures
        r@ == "info"@,
{
    "info".to_owned()
}

pub fn default_true() -> (r: bool)
    ensures
        r,
{
    true
}

pub fn default_max_file_size() -> (r: u64)
    ensures
        r == 10 * 1024 * 1024,
{
    10 * 1024 * 1024
}

pub fn default_max_files() -> (r: usize)
    ensures
        r == 5,
{
    5
}

impl HealthcheckConfig {
    /// The settings of a configuration that leaves the section out.
    pub open spec fn is_default(&self) -> bool {
        &&& self.enabled
        &&& self.bind_address@ == "0.0.0.0"@
        &&& self.port == 8080
        &&& self.path@ == "/health"@
    }
}

impl Default for HealthcheckConfig {
    fn default() -> (r: Self)
        ensures
            r.is_default(),
    {
        HealthcheckConfig {
            enabled: true,
            bind_address: "0.0.0.0".to_owned(),
            port: 8080,
            path: "/health".to_owned(),
        }
    }
}

impl LimitsConfig {
    /// The settings of a configuration that leaves the section out.
    pub open spec fn is_default(&self) -> bool {
        &&& self.max_connections_per_listener == 1024
        &&& self.max_inflight_requests_per_connection == 64
        &&& self.max_upstream_pool_entries == 256
        &&& self.transaction_timeout_seconds == 30
    }

    /// Whether no resource is limited to nothing.
    pub open spec fn all_positive(&self) -> bool {
        &&& self.max_connections_per_listener > 0
        &&& self.max_inflight_requests_per_connection > 0
        &&& self.max_upstream_pool_entries > 0
        &&& self.transaction_timeout_seconds > 0
    }
}

impl Default for LimitsConfig {
    fn default() -> (r: Self)
        ensures
            r.is_default(),
    {
        LimitsConfig {
            max_connections_per_listener: default_max_connections_per_listener(),
            max_inflight_requests_per_connection: default_max_inflight_requests_per_connection(),
            max_upstream_pool_entries: default_max_upstream_pool_entries(),
            transaction_timeout_seconds: default_transaction_timeout_seconds(),
        }
    }
}

impl LoggingConfig {
    /// The settings of a configuration that leaves the section out.
    pub open spec fn is_default(&self) -> bool {
        &&& self.level@ == "info"@
        &&& self.file is None
        &&& !self.json
        &&& self.rotation
        &&& self.max_file_size == 10 * 1024 * 1024
        &&& self.max_files == 5
    }
}

impl Default for LoggingConfig {
    fn default() -> (r: Self)
        ensures
            r.is_default(),
    {
        LoggingConfig {
            level: default_log_level(),
            file: None,
            json: false,
            rotation: default_true(),
            max_file_size: default_max_file_size(),
            max_files: default_max_files(),
        }
    }
}

/// The texts of a [`CertificateConfig`].
#[verifier::ext_equal]
pub struct CertificateView {
    pub cert_file: Seq<char>,
    pub key_file: Seq<char>,
}

impl View for CertificateConfig {
    type V = CertificateView;

    open spec fn view(&self) -> CertificateView {
        CertificateView { cert_file: self.cert_file@, key_file: self.key_file@ }
    }
}

impl TlsConfig {
    /// The settings of a configuration that leaves the section out.
    pub open spec fn is_default(&self) -> bool {
        &&& self.default is None
        &&& self.certs@.len() == 0
        &&& self.upstream_ca_file is None
    }
}

impl Default for TlsConfig {
    fn default() -> (r: Self)
        ensures
            r.is_default(),
    {
        TlsConfig { default: None, certs: TextMap::new(), upstream_ca_file: None }
    }
}

impl ServerPortConfig {
    /// Whether the listener has the given settings and the usual path.
    pub open spec fn is(&self, enabled: bool, port: u16) -> bool {
        &&& self.enabled == enabled
        &&& self.bind_address@ == "0.0.0.0"@
        &&& self.port == port
        &&& self.path@ == "/dns-query"@
    }

    /// A listener on all addresses with the usual path.
    fn on_all_addresses(enabled: bool, port: u16) -> (r: Self)
        ensures
            r.is(enabled, port),
    {
        ServerPortConfig {
            enabled,
            bind_address: "0.0.0.0".to_owned(),
            port,
            path: default_doh_path(),
        }
    }
}

impl AppConfig {
    /// The configuration that a program starts from.
    pub open spec fn is_default(&self) -> bool {
        &&& texts(self.rewrite.base_domains@) == seq!["example.com"@, "example.org"@]
        &&& self.rewrite.target_suffix@ == ".example.cn"@
        &&& self.servers.dot.is(true, DNS_PORT)
        &&& self.servers.doh.is(true, HTTPS_PORT)
        &&& self.servers.doq.is(true, DNS_PORT)
        &&& self.servers.doh3.is(false, HTTPS_PORT)
        &&& self.servers.healthcheck.is_default()
        &&& self.upstream.dot.port == DNS_PORT
        &&& self.upstream.doh.port == HTTPS_PORT
        &&& self.upstream.doh.path@ == "/dns-query"@
        &&& self.upstream.doq.port == DNS_PORT
        &&& self.upstream.doh3.port == HTTPS_PORT
        &&& self.upstream.doh3.path@ == "/dns-query"@
        &&& self.tls.is_default()
        &&& self.logging.is_default()
        &&& self.limits.is_default()
    }
}

impl Default for AppConfig {
    fn default() -> (r: Self)
        ensures
            r.is_default(),
    {
        let base_domains: Vec<String> = vec!["example.com".to_owned(), "example.org".to_owned()];
        proof {
            assert(texts(base_domains@) == seq!["example.com"@, "example.org"@]);
        }
        AppConfig {
            rewrite: RewriteConfig { base_domains, target_suffix: ".example.cn".to_owned() },
            servers: ServersConfig {
                dot: ServerPortConfig::on_all_addresses(true, default_dns_port()),
                doh: ServerPortConfig::on_all_addresses(true, default_https_port()),
                doq: ServerPortConfig::on_all_addresses(true, default_dns_port()),
                doh3: ServerPortConfig::on_all_addresses(false, default_https_port()),
                healthcheck: HealthcheckConfig::default(),
            },
            upstream: UpstreamConfig {
                dot: DnsUpstreamConfig { port: default_dns_port() },
                doh: HttpUpstreamConfig { port: default_https_port(), path: default_doh_path() },
                doq: DnsUpstreamConfig { port: default_dns_port() },
                doh3: HttpUpstreamConfig { port: default_https_port(), path: default_doh_path() },
            },
            tls: TlsConfig::default(),
            logging: LoggingConfig::default(),
            limits: LimitsConfig::default(),
        }
    }
}

/// The defaults by value: DNS ports are 853 and HTTPS ports 443, health checks are served on
/// 8080, DoH3 is off, and the limits are 1024 connections, 64 requests on each, 256 pool
/// entries and 30 seconds.
pub proof fn defaults_by_value(config: AppConfig)
    requires
        config.is_default(),
    ensures
        config.servers.dot.enabled && config.servers.dot.port == 853,
        config.servers.doh.enabled && config.servers.doh.port == 443,
        config.servers.doq.enabled && config.servers.doq.port == 853,
        !config.servers.doh3.enabled && config.servers.doh3.port == 443,
        config.servers.healthcheck.enabled && config.servers.healthcheck.port == 8080,
        config.upstream.dot.port == 853 && config.upstream.doq.port == 853,
        config.upstream.doh.port == 443 && config.upstream.doh3.port == 443,
        config.upstream.doh.path@ == "/dns-query"@ && config.upstream.doh3.path@ == "/dns-query"@,
        config.servers.doh.path@ == "/dns-query"@ && config.servers.doh3.path@ == "/dns-query"@,
        config.limits.max_connections_per_listener == 1024,
        config.limits.max_inflight_requests_per_connection == 64,
        config.limits.max_upstream_pool_entries == 256,
        config.limits.transaction_timeout_seconds == 30,
        config.limits.all_positive(),
        config.tls.default is None && config.tls.certs@.len() == 0
            && config.tls.upstream_ca_file is None,
        config.logging.max_file_size == 10485760 && config.logging.max_files == 5
            && config.logging.rotation && !config.logging.json,
{
}

/// No limit is zero exactly where all of them are positive.
pub proof fn limits_are_positive_one_by_one(limits: LimitsConfig)
    ensures
        limits.all_positive() <==> limits.max_connections_per_listener != 0
            && limits.max_inflight_requests_per_connection != 0 && limits.max_upstream_pool_entries
            != 0 && limits.transaction_timeout_seconds != 0,
{
}

/// The texts of strings are those of each of them, in their order.
pub proof fn texts_keep_their_order(list: Seq<String>, i: int)
    requires
        0 <= i < list.len(),
    ensures
        texts(list).len() == list.len(),
        texts(list)[i] == list[i]@,
{
}

/// The texts of a certificate setting are the paths of its own two files.
pub proof fn certificate_settings_show_their_files(config: CertificateConfig)
    ensures
        config@.cert_file == config.cert_file@,
        config@.key_file == config.key_file@,
{
}

} // verus!
