//! The rules that a configuration must meet before a listener starts.
use crate::config;
use crate::config::names;
use crate::config::{
    AppConfig, CertificateConfig, RewriteConfig, ServerPortConfig, ServersConfig, TlsConfig,
};
use crate::error;
use crate::rewriters::base;
use crate::text;
use vstd::prelude::*;

verus! {

/// An IP address as the number that its bytes make up.
#[derive(Debug, Clone, Copy, PartialEq, Eq, Structural)]
pub enum IpAddress {
    V4(u32),
    V6(u128),
}

/// An IP address and a port.
#[derive(Debug, Clone, Copy, PartialEq, Eq, Structural)]
pub struct SocketAddress {
    pub ip: IpAddress,
    pub port: u16,
}

/// What the bind addresses of the listeners denote: nothing where one is no socket
/// address.
#[derive(Debug, Clone, Copy)]
pub struct BindAddresses {
    pub dot: Option<SocketAddress>,
    pub doh: Option<SocketAddress>,
    pub doq: Option<SocketAddress>,
    pub doh3: Option<SocketAddress>,
    pub healthcheck: Option<SocketAddress>,
}

/// The transport that a listener binds.
#[derive(Debug, Clone, Copy, PartialEq, Eq, Structural)]
pub enum Transport {
    Tcp,
    Udp,
}

/// A listener's wish for a socket.
#[derive(Debug, Clone)]
pub struct Claim {
    pub name: String,
    pub transport: Transport,
    pub enabled: bool,
    /// The bind address as it is written.
    pub bound: String,
    /// The bind address as it was understood.
    pub address: Option<SocketAddress>,
}

/// The texts and values of a [`Claim`].
#[verifier::ext_equal]
pub struct ClaimView {
    pub name: Seq<char>,
    pub transport: Transport,
    pub enabled: bool,
    pub bound: Seq<char>,
    pub address: Option<SocketAddress>,
}

impl View for Claim {
    type V = ClaimView;

    open spec fn view(&self) -> ClaimView {
        ClaimView {
            name: self.name@,
            transport: self.transport,
            enabled: self.enabled,
            bound: self.bound@,
            address: self.address,
        }
    }
}

/// Whether both listeners are enabled and want the same socket.
pub open spec fn collide(a: ClaimView, b: ClaimView) -> bool {
    a.enabled && b.enabled && a.transport == b.transport && a.address is Some && a.address
        == b.address
}

/// What is wrong with the claim at `i`, given the claims before it.
pub open spec fn claim_fault(claims: Seq<ClaimView>, i: int) -> Option<Seq<char>> {
    let claim = claims[i];
    if !claim.enabled {
        None
    } else {
        match claim.address {
            None => Some("Invalid bind address for "@ + claim.name + ": "@ + claim.bound),
            Some(address) => if exists|j: int| 0 <= j < i && collide(#[trigger] claims[j], claim) {
                Some(
                    "Port conflict: "@ + text::decimal(address.port as nat)
                        + " is already used by another server"@,
                )
            } else {
                None
            },
        }
    }
}

/// The first fault among the claims from position `i` on.
pub open spec fn first_claim_fault(claims: Seq<ClaimView>, i: int) -> Option<Seq<char>>
    decreases claims.len() - i,
{
    if i >= claims.len() {
        None
    } else {
        match claim_fault(claims, i) {
            Some(fault) => Some(fault),
            None => first_claim_fault(claims, i + 1),
        }
    }
}

/// The views of a list of claims.
pub open spec fn claim_views(claims: Seq<Claim>) -> Seq<ClaimView> {
    Seq::new(claims.len(), |i: int| claims[i]@)
}

/// Checks that every enabled listener has an address and that no two of one
/// transport share it.
pub fn check_claims(claims: &Vec<Claim>) -> (r: Result<(), String>)
    ensures
        error::reports(r, first_claim_fault(claim_views(claims@), 0)),
{
    let ghost views = claim_views(claims@);
    let mut i: usize = 0;
    while i < claims.len()
        invariant
            i <= claims.len(),
            views == claim_views(claims@),
            first_claim_fault(views, 0) == first_claim_fault(views, i as int),
        decreases claims.len() - i,
    {
        let claim = &claims[i];
        proof {
            assert(views[i as int] == claim@);
        }
        if claim.enabled {
            match claim.address {
                None => {
                    let mut message = text::join3(
                        "Invalid bind address for ",
                        claim.name.as_str(),
                        ": ",
                    );
                    message.append(claim.bound.as_str());
                    return Err(message);
                },
                Some(address) => {
                    let mut j: usize = 0;
                    while j < i
                        invariant
                            j <= i < claims.len(),
                            views == claim_views(claims@),
                            claim == claims@[i as int],
                            claim.enabled,
                            claim.address == Some(address),
                            views[i as int] == claim@,
                            first_claim_fault(views, 0) == first_claim_fault(views, i as int),
                            forall|k: int|
                                0 <= k < j ==> !collide(#[trigger] views[k], views[i as int]),
                        decreases i - j,
                    {
                        let other = &claims[j];
                        proof {
                            assert(views[j as int] == other@);
                        }
                        let same_address = match other.address {
                            Some(taken) => taken == address,
                            None => false,
                        };
                        if other.enabled && other.transport == claim.transport && same_address {
                            proof {
                                assert(collide(views[j as int], views[i as int]));
                            }
                            let port = text::decimal_text(address.port as u64);
                            return Err(
                                text::join3(
                                    "Port conflict: ",
                                    port.as_str(),
                                    " is already used by another server",
                                ),
                            );
                        }
                        j += 1;
                    }
                },
            }
        }
        i += 1;
    }
    Ok(())
}

/// Whether a text is on a list.
pub fn listed(list: &Vec<String>, wanted: &String) -> (r: bool)
    ensures
        r == config::texts(list@).contains(wanted@),
{
    let mut i: usize = 0;
    while i < list.len()
        invariant
            i <= list.len(),
            forall|k: int| 0 <= k < i ==> (#[trigger] config::texts(list@)[k]) != wanted@,
        decreases list.len() - i,
    {
        if list[i] == *wanted {
            proof {
                assert(config::texts(list@)[i as int] == wanted@);
            }
            return true;
        }
        i += 1;
    }
    false
}

/// The first file of the default certificate that is missing.
pub open spec fn default_file_fault(
    default: Option<CertificateConfig>,
    missing: Seq<Seq<char>>,
) -> Option<Seq<char>> {
    match default {
        Some(cert) => if missing.contains(cert.cert_file@) {
            Some("Default certificate file not found: "@ + cert.cert_file@)
        } else if missing.contains(cert.key_file@) {
            Some("Default key file not found: "@ + cert.key_file@)
        } else {
            None
        },
        None => None,
    }
}

/// The first file that is missing among the certificates from position `i` on.
pub open spec fn domain_file_fault(
    certs: Seq<(Seq<char>, CertificateConfig)>,
    missing: Seq<Seq<char>>,
    i: int,
) -> Option<Seq<char>>
    decreases certs.len() - i,
{
    if i >= certs.len() {
        None
    } else {
        let (domain, cert) = certs[i];
        if missing.contains(cert.cert_file@) {
            Some("Certificate file not found for "@ + domain + ": "@ + cert.cert_file@)
        } else if missing.contains(cert.key_file@) {
            Some("Key file not found for "@ + domain + ": "@ + cert.key_file@)
        } else {
            domain_file_fault(certs, missing, i + 1)
        }
    }
}

/// The first of two faults.
pub open spec fn first_fault(a: Option<Seq<char>>, b: Option<Seq<char>>) -> Option<Seq<char>> {
    match a {
        Some(fault) => Some(fault),
        None => b,
    }
}

impl TlsConfig {
    /// The first configured file that is missing.
    pub open spec fn file_fault(&self, missing: Seq<Seq<char>>) -> Option<Seq<char>> {
        first_fault(
            default_file_fault(self.default, missing),
            domain_file_fault(self.certs@, missing, 0),
        )
    }

    /// Whether some certificate is configured.
    pub open spec fn has_certificate(&self) -> bool {
        self.default is Some || self.certs@.len() > 0
    }

    /// Whether some certificate is configured.
    pub fn any_certificate(&self) -> (r: bool)
        ensures
            r == self.has_certificate(),
    {
        self.default.is_some() || !self.certs.is_empty()
    }

    /// Checks that no configured file is among the missing ones.
    pub fn check_files(&self, missing: &Vec<String>) -> (r: Result<(), String>)
        ensures
            error::reports(r, self.file_fault(config::texts(missing@))),
    {
        match &self.default {
            Some(cert) => {
                if listed(missing, &cert.cert_file) {
                    return Err(
                        text::join(
                            "Default certificate file not found: ",
                            cert.cert_file.as_str(),
                        ),
                    );
                }
                if listed(missing, &cert.key_file) {
                    return Err(
                        text::join("Default key file not found: ", cert.key_file.as_str()),
                    );
                }
            },
            None => {},
        }
        let mut i: usize = 0;
        while i < self.certs.len()
            invariant
                i <= self.certs@.len(),
                self.file_fault(config::texts(missing@)) == domain_file_fault(
                    self.certs@,
                    config::texts(missing@),
                    i as int,
                ),
            decreases self.certs@.len() - i,
        {
            let domain = self.certs.key(i);
            let cert = self.certs.value(i);
            if listed(missing, &cert.cert_file) {
                let mut message = text::join3(
                    "Certificate file not found for ",
                    domain.as_str(),
                    ": ",
                );
                message.append(cert.cert_file.as_str());
                return Err(message);
            }
            if listed(missing, &cert.key_file) {
                let mut message = text::join3("Key file not found for ", domain.as_str(), ": ");
                message.append(cert.key_file.as_str());
                return Err(message);
            }
            i += 1;
        }
        Ok(())
    }
}

impl RewriteConfig {
    /// Whether every name is in the form in which names are compared.
    pub open spec fn is_canonical(&self) -> bool {
        &&& forall|i: int|
            0 <= i < self.base_domains@.len() ==> names::is_dns_name(#[trigger] self.base_domains@[i]@)
        &&& names::is_dns_suffix(self.target_suffix@)
    }

    /// Whether every name is in the form in which names are compared.
    fn has_canonical_names(&self) -> (r: bool)
        ensures
            r == self.is_canonical(),
    {
        let mut i: usize = 0;
        while i < self.base_domains.len()
            invariant
                i <= self.base_domains.len(),
                forall|k: int| 0 <= k < i ==> names::is_dns_name(#[trigger] self.base_domains@[k]@),
            decreases self.base_domains.len() - i,
        {
            if !names::is_ascii_dns_name(self.base_domains[i].as_str()) {
                return false;
            }
            i += 1;
        }
        names::is_ascii_dns_suffix(self.target_suffix.as_str())
    }
}

impl ServersConfig {
    /// Whether some listener for DNS is enabled.
    pub open spec fn serves_dns(&self) -> bool {
        self.dot.enabled || self.doh.enabled || self.doq.enabled || self.doh3.enabled
    }

    /// Whether some listener for DNS is enabled.
    pub fn any_dns_listener(&self) -> (r: bool)
        ensures
            r == self.serves_dns(),
    {
        self.dot.enabled || self.doh.enabled || self.doq.enabled || self.doh3.enabled
    }

    /// The sockets that the listeners want, in the order in which they are checked.
    pub open spec fn claims(&self, binds: BindAddresses) -> Seq<ClaimView> {
        seq![
            port_claim("dot"@, Transport::Tcp, self.dot, binds.dot),
            port_claim("doh"@, Transport::Tcp, self.doh, binds.doh),
            port_claim("doq"@, Transport::Udp, self.doq, binds.doq),
            port_claim("doh3"@, Transport::Udp, self.doh3, binds.doh3),
            ClaimView {
                name: "healthcheck"@,
                transport: Transport::Tcp,
                enabled: self.healthcheck.enabled,
                bound: text::with_port(self.healthcheck.bind_address@, self.healthcheck.port),
                address: binds.healthcheck,
            },
        ]
    }
}

/// The socket that a DNS listener wants.
pub open spec fn port_claim(
    name: Seq<char>,
    transport: Transport,
    server: ServerPortConfig,
    address: Option<SocketAddress>,
) -> ClaimView {
    ClaimView {
        name,
        transport,
        enabled: server.enabled,
        bound: text::with_port(server.bind_address@, server.port),
        address,
    }
}

/// The socket that a DNS listener wants.
fn claim_of(
    name: &str,
    transport: Transport,
    server: &ServerPortConfig,
    address: Option<SocketAddress>,
) -> (r: Claim)
    ensures
        r@ == port_claim(name@, transport, *server, address),
{
    Claim {
        name: name.to_owned(),
        transport,
        enabled: server.enabled,
        bound: text::join_port(server.bind_address.as_str(), server.port),
        address,
    }
}

impl AppConfig {
    /// What is wrong with the settings that need no look at the machine.
    pub open spec fn settings_fault(&self) -> Option<Seq<char>> {
        if self.rewrite.base_domains@.len() == 0 {
            Some("At least one base domain must be configured for SNI rewriting"@)
        } else if !text::begins_with(self.rewrite.target_suffix@, '.') {
            Some("Target suffix must start with '.' (e.g., '.example.cn')"@)
        } else if !self.rewrite.is_canonical() {
            Some("Rewrite domains must be lowercase ASCII DNS names"@)
        } else if !self.limits.all_positive() {
            Some("All resource limits must be greater than zero"@)
        } else if self.servers.serves_dns() && !self.tls.has_certificate() {
            Some(
                "At least one TLS certificate is required when a DNS ingress listener is enabled"@,
            )
        } else if !text::begins_with(self.upstream.doh.path@, '/') {
            Some("doh upstream path must start with '/'"@)
        } else if !text::begins_with(self.upstream.doh3.path@, '/') {
            Some("doh3 upstream path must start with '/'"@)
        } else if !text::begins_with(self.servers.doh.path@, '/') {
            Some("doh listener path must start with '/'"@)
        } else if !text::begins_with(self.servers.doh3.path@, '/') {
            Some("doh3 listener path must start with '/'"@)
        } else {
            None
        }
    }

    /// The first rule that the configuration breaks, given what its bind addresses
    /// denote and which files are missing.
    pub open spec fn fault(&self, binds: BindAddresses, missing: Seq<Seq<char>>) -> Option<
        Seq<char>,
    > {
        first_fault(
            first_claim_fault(self.servers.claims(binds), 0),
            first_fault(self.tls.file_fault(missing), self.settings_fault()),
        )
    }

    /// Checks the settings that need no look at the machine.
    pub fn check_settings(&self) -> (r: Result<(), String>)
        ensures
            error::reports(r, self.settings_fault()),
    {
        if self.rewrite.base_domains.is_empty() {
            return Err(
                "At least one base domain must be configured for SNI rewriting".to_owned(),
            );
        }
        if !text::starts_with_char(self.rewrite.target_suffix.as_str(), '.') {
            return Err("Target suffix must start with '.' (e.g., '.example.cn')".to_owned());
        }
        if !self.rewrite.has_canonical_names() {
            return Err("Rewrite domains must be lowercase ASCII DNS names".to_owned());
        }
        if self.limits.max_connections_per_listener == 0
            || self.limits.max_inflight_requests_per_connection == 0
            || self.limits.max_upstream_pool_entries == 0
            || self.limits.transaction_timeout_seconds == 0 {
            return Err("All resource limits must be greater than zero".to_owned());
        }
        if self.servers.any_dns_listener() && !self.tls.any_certificate() {
            return Err(
                "At least one TLS certificate is required when a DNS ingress listener is enabled".to_owned(),
            );
        }
        if !text::starts_with_char(self.upstream.doh.path.as_str(), '/') {
            return Err("doh upstream path must start with '/'".to_owned());
        }
        if !text::starts_with_char(self.upstream.doh3.path.as_str(), '/') {
            return Err("doh3 upstream path must start with '/'".to_owned());
        }
        if !text::starts_with_char(self.servers.doh.path.as_str(), '/') {
            return Err("doh listener path must start with '/'".to_owned());
        }
        if !text::starts_with_char(self.servers.doh3.path.as_str(), '/') {
            return Err("doh3 listener path must start with '/'".to_owned());
        }
        Ok(())
    }

    /// Validates the configuration before servers start. `binds` says what the bind
    /// addresses denote, `missing` which of the configured files do not exist.
    pub fn validate(&self, binds: &BindAddresses, missing: &Vec<String>) -> (r: Result<
        (),
        String,
    >)
        ensures
            error::reports(r, self.fault(*binds, config::texts(missing@))),
    {
        let mut claims: Vec<Claim> = Vec::new();
        claims.push(claim_of("dot", Transport::Tcp, &self.servers.dot, binds.dot));
        claims.push(claim_of("doh", Transport::Tcp, &self.servers.doh, binds.doh));
        claims.push(claim_of("doq", Transport::Udp, &self.servers.doq, binds.doq));
        claims.push(claim_of("doh3", Transport::Udp, &self.servers.doh3, binds.doh3));
        let healthcheck = &self.servers.healthcheck;
        claims.push(
            Claim {
                name: "healthcheck".to_owned(),
                transport: Transport::Tcp,
                enabled: healthcheck.enabled,
                bound: text::join_port(healthcheck.bind_address.as_str(), healthcheck.port),
                address: binds.healthcheck,
            },
        );
        proof {
            assert(claim_views(claims@) == self.servers.claims(*binds));
        }
        match check_claims(&claims) {
            Ok(()) => {},
            Err(fault) => return Err(fault),
        }
        match self.tls.check_files(missing) {
            Ok(()) => {},
            Err(fault) => return Err(fault),
        }
        self.check_settings()
    }
}

/// Where no claim from `i` on is at fault, none of them is.
proof fn lemma_no_claim_fault(claims: Seq<ClaimView>, i: int, at: int)
    requires
        0 <= i <= at < claims.len(),
        first_claim_fault(claims, i) is None,
    ensures
        claim_fault(claims, at) is None,
    decreases at - i,
{
    if i < at {
        lemma_no_claim_fault(claims, i + 1, at);
    }
}

/// In a configuration that passes, every enabled listener has a socket address, and
/// no two enabled listeners of one transport share it.
pub proof fn accepted_listeners_do_not_collide(
    config: AppConfig,
    binds: BindAddresses,
    missing: Seq<Seq<char>>,
    i: int,
    j: int,
)
    requires
        config.fault(binds, missing) is None,
        0 <= i < j < config.servers.claims(binds).len(),
    ensures
        ({
            let claims = config.servers.claims(binds);
            &&& claims[i].enabled ==> claims[i].address is Some
            &&& claims[j].enabled ==> claims[j].address is Some
            &&& !collide(claims[i], claims[j])
        }),
{
    let claims = config.servers.claims(binds);
    lemma_no_claim_fault(claims, 0, i);
    lemma_no_claim_fault(claims, 0, j);
}

/// Listeners of different transports never get in each other's way.
pub proof fn transports_are_separate(a: ClaimView, b: ClaimView)
    requires
        a.transport != b.transport,
    ensures
        !collide(a, b),
{
}

/// In a configuration that passes, every resource limit is positive, a listener for
/// DNS has a certificate, and every name that is compared is already in the form
/// that the rewriter brings it into.
pub proof fn accepted_settings_are_canonical(config: AppConfig)
    requires
        config.settings_fault() is None,
    ensures
        config.limits.all_positive(),
        config.servers.serves_dns() ==> config.tls.has_certificate(),
        base::canonical_domains(config::texts(config.rewrite.base_domains@)) == config::texts(
            config.rewrite.base_domains@,
        ),
        text::lower(config.rewrite.target_suffix@) == config.rewrite.target_suffix@,
{
    let domains = config::texts(config.rewrite.base_domains@);
    assert forall|i: int| 0 <= i < domains.len() implies base::canonical(#[trigger] domains[i])
        == domains[i] by {
        assert(names::is_dns_name(config.rewrite.base_domains@[i]@));
        names::dns_names_are_canonical(domains[i]);
    }
    assert(base::canonical_domains(domains) == domains);
    names::dns_suffixes_are_canonical(config.rewrite.target_suffix@);
}

/// Under a configuration that passes, every subdomain of a base domain is routed.
pub proof fn accepted_base_domains_are_served(config: AppConfig, prefix: Seq<char>, at: int)
    requires
        config.settings_fault() is None,
        0 <= at < config.rewrite.base_domains@.len(),
        prefix.len() > 0,
        base::is_host_text(prefix),
    ensures
        base::rewritten(
            base::canonical_domains(config::texts(config.rewrite.base_domains@)),
            text::lower(config.rewrite.target_suffix@),
            prefix.push('.') + config.rewrite.base_domains@[at]@,
        ) is Some,
{
    accepted_settings_are_canonical(config);
    let domains = config::texts(config.rewrite.base_domains@);
    assert(names::is_dns_name(config.rewrite.base_domains@[at]@));
    names::dns_names_are_canonical(domains[at]);
    base::names_below_a_base_are_rewritten(
        domains,
        config.rewrite.target_suffix@,
        prefix,
        at,
    );
}

/// A configuration passes exactly where it keeps every rule: each enabled listener has an
/// address and none shares it with another of its transport, no configured file is missing,
/// there is a base domain, all names are DNS names, the target suffix is a dot and one, no
/// limit is zero, there is a certificate where DNS is served, and every path begins with a
/// slash.
pub proof fn configurations_that_keep_every_rule_pass(
    config: AppConfig,
    binds: BindAddresses,
    missing: Seq<Seq<char>>,
)
    ensures
        config.fault(binds, missing) is None <==> {
            let claims = config.servers.claims(binds);
            &&& forall|i: int|
                0 <= i < claims.len() && (#[trigger] claims[i]).enabled ==> claims[i].address
                    is Some
            &&& forall|i: int, j: int|
                0 <= i < j < claims.len() && (#[trigger] claims[i]).enabled && (
                #[trigger] claims[j]).enabled && claims[i].transport == claims[j].transport
                    ==> claims[i].address != claims[j].address
            &&& config.tls.default matches Some(cert) ==> !missing.contains(cert.cert_file@)
                && !missing.contains(cert.key_file@)
            &&& forall|i: int|
                0 <= i < config.tls.certs@.len() ==> !missing.contains(
                    (#[trigger] config.tls.certs@[i]).1.cert_file@,
                ) && !missing.contains(config.tls.certs@[i].1.key_file@)
            &&& config.rewrite.base_domains@.len() > 0
            &&& forall|i: int|
                0 <= i < config.rewrite.base_domains@.len() ==> names::is_dns_name(
                    (#[trigger] config.rewrite.base_domains@[i])@,
                )
            &&& names::is_dns_suffix(config.rewrite.target_suffix@)
            &&& config.limits.max_connections_per_listener != 0
            &&& config.limits.max_inflight_requests_per_connection != 0
            &&& config.limits.max_upstream_pool_entries != 0
            &&& config.limits.transaction_timeout_seconds != 0
            &&& config.servers.dot.enabled || config.servers.doh.enabled
                || config.servers.doq.enabled || config.servers.doh3.enabled
                ==> config.tls.default is Some || config.tls.certs@.len() > 0
            &&& config.upstream.doh.path@.len() > 0 && config.upstream.doh.path@[0] == '/'
            &&& config.upstream.doh3.path@.len() > 0 && config.upstream.doh3.path@[0] == '/'
            &&& config.servers.doh.path@.len() > 0 && config.servers.doh.path@[0] == '/'
            &&& config.servers.doh3.path@.len() > 0 && config.servers.doh3.path@[0] == '/'
        },
{
    let claims = config.servers.claims(binds);
    lemma_claims_without_fault(claims, 0);
    lemma_files_without_fault(config.tls.certs@, missing, 0);
    names::suffixes_are_names_behind_a_dot(config.rewrite.target_suffix@);
    assert(first_claim_fault(claims, 0) is None <==> {
        &&& forall|i: int|
            0 <= i < claims.len() && (#[trigger] claims[i]).enabled ==> claims[i].address is Some
        &&& forall|i: int, j: int|
            0 <= i < j < claims.len() && (#[trigger] claims[i]).enabled && (
            #[trigger] claims[j]).enabled && claims[i].transport == claims[j].transport
                ==> claims[i].address != claims[j].address
    }) by {
        if first_claim_fault(claims, 0) is None {
            assert forall|i: int| 0 <= i < claims.len() && (
            #[trigger] claims[i]).enabled implies claims[i].address is Some by {
                assert(claim_fault(claims, i) is None);
            }
            assert forall|i: int, j: int|
                0 <= i < j < claims.len() && (#[trigger] claims[i]).enabled && (
                #[trigger] claims[j]).enabled && claims[i].transport
                    == claims[j].transport implies claims[i].address != claims[j].address by {
                assert(claim_fault(claims, j) is None);
                assert(!collide(claims[i], claims[j]));
                assert(claim_fault(claims, i) is None);
            }
        }
    }
}

/// Claims from a position on are without fault exactly where each of them is.
proof fn lemma_claims_without_fault(claims: Seq<ClaimView>, i: int)
    requires
        0 <= i <= claims.len(),
    ensures
        first_claim_fault(claims, i) is None <==> forall|k: int|
            i <= k < claims.len() ==> #[trigger] claim_fault(claims, k) is None,
    decreases claims.len() - i,
{
    if i < claims.len() {
        lemma_claims_without_fault(claims, i + 1);
        if claim_fault(claims, i) is None && first_claim_fault(claims, i + 1) is None {
            assert forall|k: int| i <= k < claims.len() implies #[trigger] claim_fault(
                claims,
                k,
            ) is None by {}
        }
    }
}

/// No file of the certificates from a position on is missing exactly where none of each is.
proof fn lemma_files_without_fault(
    certs: Seq<(Seq<char>, CertificateConfig)>,
    missing: Seq<Seq<char>>,
    i: int,
)
    requires
        0 <= i <= certs.len(),
    ensures
        domain_file_fault(certs, missing, i) is None <==> forall|k: int|
            i <= k < certs.len() ==> !missing.contains((#[trigger] certs[k]).1.cert_file@)
                && !missing.contains(certs[k].1.key_file@),
    decreases certs.len() - i,
{
    if i < certs.len() {
        lemma_files_without_fault(certs, missing, i + 1);
    }
}

/// The sockets that are claimed: DoT, DoH and the healthcheck claim TCP, DoQ and DoH3 UDP,
/// each where its own section enables it and with its own address.
pub proof fn listeners_claim_their_sockets(servers: ServersConfig, binds: BindAddresses)
    ensures
        ({
            let claims = servers.claims(binds);
            &&& claims.len() == 5
            &&& claims[0].transport is Tcp && claims[0].enabled == servers.dot.enabled
                && claims[0].address == binds.dot && claims[0].bound == text::with_port(
                servers.dot.bind_address@,
                servers.dot.port,
            )
            &&& claims[1].transport is Tcp && claims[1].enabled == servers.doh.enabled
                && claims[1].address == binds.doh && claims[1].bound == text::with_port(
                servers.doh.bind_address@,
                servers.doh.port,
            )
            &&& claims[2].transport is Udp && claims[2].enabled == servers.doq.enabled
                && claims[2].address == binds.doq && claims[2].bound == text::with_port(
                servers.doq.bind_address@,
                servers.doq.port,
            )
            &&& claims[3].transport is Udp && claims[3].enabled == servers.doh3.enabled
                && claims[3].address == binds.doh3 && claims[3].bound == text::with_port(
                servers.doh3.bind_address@,
                servers.doh3.port,
            )
            &&& claims[4].transport is Tcp && claims[4].enabled == servers.healthcheck.enabled
                && claims[4].address == binds.healthcheck && claims[4].bound == text::with_port(
                servers.healthcheck.bind_address@,
                servers.healthcheck.port,
            )
        }),
{
}

/// The first listener at fault is named with its address as it is written, or a conflict
/// with the port that is taken.
pub proof fn faults_name_the_listener(claims: Seq<ClaimView>, i: int)
    requires
        0 <= i < claims.len(),
        claims[i].enabled,
    ensures
        claims[i].address is None ==> (claim_fault(claims, i) matches Some(fault)
            && text::ends_with(fault, claims[i].name + ": "@ + claims[i].bound)),
        claims[i].address matches Some(address) ==> (claim_fault(claims, i) matches Some(fault)
            ==> fault == "Port conflict: "@ + (text::decimal(address.port as nat)
            + " is already used by another server"@)),
        (forall|k: int| 0 <= k < i ==> #[trigger] claim_fault(claims, k) is None) && claim_fault(
            claims,
            i,
        ) is Some ==> first_claim_fault(claims, 0) == claim_fault(claims, i),
{
    if claims[i].address is None {
        let end = claims[i].name + ": "@ + claims[i].bound;
        assert(claim_fault(claims, i)->0 == "Invalid bind address for "@ + end);
        text::ends_and_beginnings("Invalid bind address for "@, end, ' ');
    } else if claim_fault(claims, i) is Some {
        assert(claim_fault(claims, i)->0 == "Port conflict: "@ + (text::decimal(
            claims[i].address->0.port as nat,
        ) + " is already used by another server"@));
    }
    if forall|k: int| 0 <= k < i ==> #[trigger] claim_fault(claims, k) is None {
        lemma_first_claim_fault(claims, 0, i);
    }
}

/// Claims without fault are passed over.
proof fn lemma_first_claim_fault(claims: Seq<ClaimView>, from: int, i: int)
    requires
        0 <= from <= i < claims.len(),
        forall|k: int| from <= k < i ==> #[trigger] claim_fault(claims, k) is None,
    ensures
        first_claim_fault(claims, from) == first_claim_fault(claims, i),
    decreases i - from,
{
    if from < i {
        assert(claim_fault(claims, from) is None);
        lemma_first_claim_fault(claims, from + 1, i);
    }
}

/// The texts of a claim are those of its own fields, and those of claims keep their order.
pub proof fn claims_show_their_own_fields(claims: Seq<Claim>, i: int)
    requires
        0 <= i < claims.len(),
    ensures
        claim_views(claims).len() == claims.len(),
        claim_views(claims)[i].name == claims[i].name@,
        claim_views(claims)[i].transport == claims[i].transport,
        claim_views(claims)[i].enabled == claims[i].enabled,
        claim_views(claims)[i].bound == claims[i].bound@,
        claim_views(claims)[i].address == claims[i].address,
{
}

/// A file that is missing is named in the fault: of the default certificate first, its
/// certificate before its key, and then of the others in their order.
pub proof fn missing_files_are_named(
    default: CertificateConfig,
    certs: Seq<(Seq<char>, CertificateConfig)>,
    missing: Seq<Seq<char>>,
    i: int,
)
    requires
        0 <= i < certs.len(),
    ensures
        missing.contains(default.cert_file@) ==> (default_file_fault(
            Some(default),
            missing,
        ) matches Some(fault) && text::ends_with(fault, default.cert_file@)),
        !missing.contains(default.cert_file@) && missing.contains(default.key_file@) ==> (
        default_file_fault(Some(default), missing) matches Some(fault) && text::ends_with(
            fault,
            default.key_file@,
        )),
        missing.contains(certs[i].1.cert_file@) ==> (domain_file_fault(certs, missing, i) matches Some(
            fault,
        ) && text::ends_with(fault, certs[i].0 + ": "@ + certs[i].1.cert_file@)),
        !missing.contains(certs[i].1.cert_file@) && missing.contains(certs[i].1.key_file@) ==> (
        domain_file_fault(certs, missing, i) matches Some(fault) && text::ends_with(
            fault,
            certs[i].0 + ": "@ + certs[i].1.key_file@,
        )),
{
    text::ends_and_beginnings(
        "Default certificate file not found: "@,
        default.cert_file@,
        ' ',
    );
    text::ends_and_beginnings("Default key file not found: "@, default.key_file@, ' ');
    let cert = certs[i].0 + ": "@ + certs[i].1.cert_file@;
    let key = certs[i].0 + ": "@ + certs[i].1.key_file@;
    text::ends_and_beginnings("Certificate file not found for "@, cert, ' ');
    text::ends_and_beginnings("Key file not found for "@, key, ' ');
    assert("Certificate file not found for "@ + certs[i].0 + ": "@ + certs[i].1.cert_file@
        == "Certificate file not found for "@ + cert);
    assert("Key file not found for "@ + certs[i].0 + ": "@ + certs[i].1.key_file@
        == "Key file not found for "@ + key);
}

} // verus!
