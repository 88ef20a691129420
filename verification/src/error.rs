//! What can go wrong while DNS traffic is proxied.
use crate::text;
use vstd::prelude::*;

verus! {

/// A failure on the way to the upstream.
#[derive(Debug, Clone)]
pub enum UpstreamError {
    ConnectionFailed { upstream: String, reason: String },
    RequestFailed { upstream: String, reason: String },
}

/// A server name that leads nowhere.
#[derive(Debug, Clone)]
pub enum SniRewriteError {
    NoMatchingBaseDomain { hostname: String },
}

/// A certificate or key that cannot be used.
#[derive(Debug, Clone)]
pub enum CertificateError {
    LoadFailed { path: String, reason: String },
    InvalidFormat { reason: String },
    PrivateKey { reason: String },
    NotConfigured { domain: String },
}

/// Every failure of the proxy.
#[derive(Debug, Clone)]
pub enum DnsProxyError {
    /// A socket or a file failed, with the system's words.
    Io(String),
    Tls(String),
    Protocol(String),
    InvalidInput(String),
    /// The configuration breaks a rule, or a listener could not be set up.
    Setup(String),
    Timeout { upstream: String },
    Overloaded { upstream: String, protocol: String },
    Upstream(UpstreamError),
    SniRewrite(SniRewriteError),
    Certificate(CertificateError),
}

/// The result of an operation of the proxy.
pub type DnsProxyResult<T> = Result<T, DnsProxyError>;

/// The texts of a [`DnsProxyError`].
#[verifier::ext_equal]
pub enum ErrorView {
    Io(Seq<char>),
    Tls(Seq<char>),
    Protocol(Seq<char>),
    InvalidInput(Seq<char>),
    Setup(Seq<char>),
    Timeout { upstream: Seq<char> },
    Overloaded { upstream: Seq<char>, protocol: Seq<char> },
    ConnectionFailed { upstream: Seq<char>, reason: Seq<char> },
    RequestFailed { upstream: Seq<char>, reason: Seq<char> },
    NoMatchingBaseDomain { hostname: Seq<char> },
    LoadFailed { path: Seq<char>, reason: Seq<char> },
    InvalidFormat { reason: Seq<char> },
    PrivateKey { reason: Seq<char> },
    NotConfigured { domain: Seq<char> },
}

impl View for DnsProxyError {
    type V = ErrorView;

    open spec fn view(&self) -> ErrorView {
        match *self {
            DnsProxyError::Io(reason) => ErrorView::Io(reason@),
            DnsProxyError::Tls(reason) => ErrorView::Tls(reason@),
            DnsProxyError::Protocol(reason) => ErrorView::Protocol(reason@),
            DnsProxyError::InvalidInput(reason) => ErrorView::InvalidInput(reason@),
            DnsProxyError::Setup(reason) => ErrorView::Setup(reason@),
            DnsProxyError::Timeout { upstream } => ErrorView::Timeout { upstream: upstream@ },
            DnsProxyError::Overloaded { upstream, protocol } => ErrorView::Overloaded {
                upstream: upstream@,
                protocol: protocol@,
            },
            DnsProxyError::Upstream(
                UpstreamError::ConnectionFailed { upstream, reason },
            ) => ErrorView::ConnectionFailed { upstream: upstream@, reason: reason@ },
            DnsProxyError::Upstream(
                UpstreamError::RequestFailed { upstream, reason },
            ) => ErrorView::RequestFailed { upstream: upstream@, reason: reason@ },
            DnsProxyError::SniRewrite(
                SniRewriteError::NoMatchingBaseDomain { hostname },
            ) => ErrorView::NoMatchingBaseDomain { hostname: hostname@ },
            DnsProxyError::Certificate(
                CertificateError::LoadFailed { path, reason },
            ) => ErrorView::LoadFailed { path: path@, reason: reason@ },
            DnsProxyError::Certificate(
                CertificateError::InvalidFormat { reason },
            ) => ErrorView::InvalidFormat { reason: reason@ },
            DnsProxyError::Certificate(
                CertificateError::PrivateKey { reason },
            ) => ErrorView::PrivateKey { reason: reason@ },
            DnsProxyError::Certificate(
                CertificateError::NotConfigured { domain },
            ) => ErrorView::NotConfigured { domain: domain@ },
        }
    }
}

/// Whether a result reports the given fault, or success where there is none.
pub open spec fn reports(r: Result<(), String>, fault: Option<Seq<char>>) -> bool {
    match fault {
        Some(message) => r matches Err(error) && error@ == message,
        None => r is Ok,
    }
}

/// What an error says.
pub open spec fn message_of(error: ErrorView) -> Seq<char> {
    match error {
        ErrorView::Io(reason) => "IO error: "@ + reason,
        ErrorView::Tls(reason) => "TLS error: "@ + reason,
        ErrorView::Protocol(reason) => "Protocol error: "@ + reason,
        ErrorView::InvalidInput(reason) => "Invalid input: "@ + reason,
        ErrorView::Setup(reason) => reason,
        ErrorView::Timeout { upstream } => "Timeout: "@ + upstream,
        ErrorView::Overloaded { upstream, protocol } => protocol + " upstream overloaded: "@
            + upstream,
        ErrorView::ConnectionFailed { upstream, reason } => "Connection to upstream "@ + upstream
            + " failed: "@ + reason,
        ErrorView::RequestFailed { upstream, reason } => "Request to upstream "@ + upstream
            + " failed: "@ + reason,
        ErrorView::NoMatchingBaseDomain { hostname } => "No matching base domain for "@ + hostname,
        ErrorView::LoadFailed { path, reason } => "Failed to load "@ + path + ": "@ + reason,
        ErrorView::InvalidFormat { reason } => "Invalid certificate: "@ + reason,
        ErrorView::PrivateKey { reason } => "Invalid private key: "@ + reason,
        ErrorView::NotConfigured { domain } => "No certificate configured for "@ + domain,
    }
}

/// Four texts, one behind the other.
fn join4(a: &str, b: &str, c: &str, d: &str) -> (s: String)
    ensures
        s@ == a@ + b@ + c@ + d@,
{
    let mut s = text::join3(a, b, c);
    s.append(d);
    s
}

impl DnsProxyError {
    /// What the error says.
    pub fn message(&self) -> (r: String)
        ensures
            r@ == message_of(self@),
    {
        match self {
            DnsProxyError::Io(reason) => text::join("IO error: ", reason.as_str()),
            DnsProxyError::Tls(reason) => text::join("TLS error: ", reason.as_str()),
            DnsProxyError::Protocol(reason) => text::join("Protocol error: ", reason.as_str()),
            DnsProxyError::InvalidInput(reason) => text::join("Invalid input: ", reason.as_str()),
            DnsProxyError::Setup(reason) => reason.as_str().to_owned(),
            DnsProxyError::Timeout { upstream } => text::join("Timeout: ", upstream.as_str()),
            DnsProxyError::Overloaded { upstream, protocol } => text::join3(
                protocol.as_str(),
                " upstream overloaded: ",
                upstream.as_str(),
            ),
            DnsProxyError::Upstream(UpstreamError::ConnectionFailed { upstream, reason }) => join4(
                "Connection to upstream ",
                upstream.as_str(),
                " failed: ",
                reason.as_str(),
            ),
            DnsProxyError::Upstream(UpstreamError::RequestFailed { upstream, reason }) => join4(
                "Request to upstream ",
                upstream.as_str(),
                " failed: ",
                reason.as_str(),
            ),
            DnsProxyError::SniRewrite(
                SniRewriteError::NoMatchingBaseDomain { hostname },
            ) => text::join("No matching base domain for ", hostname.as_str()),
            DnsProxyError::Certificate(CertificateError::LoadFailed { path, reason }) => join4(
                "Failed to load ",
                path.as_str(),
                ": ",
                reason.as_str(),
            ),
            DnsProxyError::Certificate(CertificateError::InvalidFormat { reason }) => text::join(
                "Invalid certificate: ",
                reason.as_str(),
            ),
            DnsProxyError::Certificate(CertificateError::PrivateKey { reason }) => text::join(
                "Invalid private key: ",
                reason.as_str(),
            ),
            DnsProxyError::Certificate(CertificateError::NotConfigured { domain }) => text::join(
                "No certificate configured for ",
                domain.as_str(),
            ),
        }
    }
}

/// The error for a server name that lies below no base domain.
pub fn no_matching_base_domain(hostname: &str) -> (r: DnsProxyError)
    ensures
        r@ == (ErrorView::NoMatchingBaseDomain { hostname: hostname@ }),
{
    DnsProxyError::SniRewrite(
        SniRewriteError::NoMatchingBaseDomain { hostname: hostname.to_owned() },
    )
}

/// The error for an upstream that did not answer in time.
pub fn timeout(upstream: &str) -> (r: DnsProxyError)
    ensures
        r@ == (ErrorView::Timeout { upstream: upstream@ }),
{
    DnsProxyError::Timeout { upstream: upstream.to_owned() }
}

/// The error for a request that an upstream did not serve.
pub fn request_failed(upstream: &str, reason: &str) -> (r: DnsProxyError)
    ensures
        r@ == (ErrorView::RequestFailed { upstream: upstream@, reason: reason@ }),
{
    DnsProxyError::Upstream(
        UpstreamError::RequestFailed { upstream: upstream.to_owned(), reason: reason.to_owned() },
    )
}

/// The error for an upstream that could not be reached.
pub fn connection_failed(upstream: &str, reason: &str) -> (r: DnsProxyError)
    ensures
        r@ == (ErrorView::ConnectionFailed { upstream: upstream@, reason: reason@ }),
{
    DnsProxyError::Upstream(
        UpstreamError::ConnectionFailed {
            upstream: upstream.to_owned(),
            reason: reason.to_owned(),
        },
    )
}

/// A fault is reported in its own words, and no fault as success.
pub proof fn faults_are_reported_in_their_words(r: Result<(), String>, message: Seq<char>)
    ensures
        reports(r, None) <==> r is Ok,
        reports(r, Some(message)) <==> (r matches Err(error) && error@ == message),
{
}

/// A message ends with the reason of the error, and quotes its upstream, path or protocol
/// before it where the error has one.
pub proof fn messages_quote_their_errors(
    reason: Seq<char>,
    upstream: Seq<char>,
)
    ensures
        text::ends_with(message_of(ErrorView::Io(reason)), reason),
        text::ends_with(message_of(ErrorView::Tls(reason)), reason),
        text::ends_with(message_of(ErrorView::Protocol(reason)), reason),
        text::ends_with(message_of(ErrorView::InvalidInput(reason)), reason),
        message_of(ErrorView::Setup(reason)) == reason,
        text::ends_with(message_of(ErrorView::Timeout { upstream }), upstream),
        text::ends_with(
            message_of(ErrorView::Overloaded { upstream, protocol: reason }),
            " upstream overloaded: "@ + upstream,
        ),
        message_of(ErrorView::Overloaded { upstream, protocol: reason }).take(reason.len() as int)
            == reason,
        text::ends_with(
            message_of(ErrorView::ConnectionFailed { upstream, reason }),
            upstream + " failed: "@ + reason,
        ),
        text::ends_with(
            message_of(ErrorView::RequestFailed { upstream, reason }),
            upstream + " failed: "@ + reason,
        ),
        text::ends_with(
            message_of(ErrorView::NoMatchingBaseDomain { hostname: upstream }),
            upstream,
        ),
        text::ends_with(
            message_of(ErrorView::LoadFailed { path: upstream, reason }),
            upstream + ": "@ + reason,
        ),
        text::ends_with(message_of(ErrorView::InvalidFormat { reason }), reason),
        text::ends_with(message_of(ErrorView::PrivateKey { reason }), reason),
        text::ends_with(message_of(ErrorView::NotConfigured { domain: upstream }), upstream),
{
    text::ends_and_beginnings("IO error: "@, reason, ' ');
    text::ends_and_beginnings("TLS error: "@, reason, ' ');
    text::ends_and_beginnings("Protocol error: "@, reason, ' ');
    text::ends_and_beginnings("Invalid input: "@, reason, ' ');
    text::ends_and_beginnings("Timeout: "@, upstream, ' ');
    text::ends_and_beginnings("Invalid certificate: "@, reason, ' ');
    text::ends_and_beginnings("Invalid private key: "@, reason, ' ');
    text::ends_and_beginnings("No matching base domain for "@, upstream, ' ');
    text::ends_and_beginnings("No certificate configured for "@, upstream, ' ');
    let overloaded = message_of(ErrorView::Overloaded { upstream, protocol: reason });
    assert(overloaded == reason + (" upstream overloaded: "@ + upstream));
    text::ends_and_beginnings(reason, " upstream overloaded: "@ + upstream, ' ');
    assert(overloaded.take(reason.len() as int) == reason);
    let failed = upstream + " failed: "@ + reason;
    assert(message_of(ErrorView::ConnectionFailed { upstream, reason })
        == "Connection to upstream "@ + failed);
    text::ends_and_beginnings("Connection to upstream "@, failed, ' ');
    assert(message_of(ErrorView::RequestFailed { upstream, reason }) == "Request to upstream "@
        + failed);
    text::ends_and_beginnings("Request to upstream "@, failed, ' ');
    let unread = upstream + ": "@ + reason;
    assert(message_of(ErrorView::LoadFailed { path: upstream, reason }) == "Failed to load "@
        + unread);
    text::ends_and_beginnings("Failed to load "@, unread, ' ');
}

/// The texts of an error are those of its own fields, under the same kind.
pub proof fn errors_show_their_own_fields(error: DnsProxyError)
    ensures
        match error {
            DnsProxyError::Io(reason) => error@ == ErrorView::Io(reason@),
            DnsProxyError::Tls(reason) => error@ == ErrorView::Tls(reason@),
            DnsProxyError::Protocol(reason) => error@ == ErrorView::Protocol(reason@),
            DnsProxyError::InvalidInput(reason) => error@ == ErrorView::InvalidInput(reason@),
            DnsProxyError::Setup(reason) => error@ == ErrorView::Setup(reason@),
            DnsProxyError::Timeout { upstream: u } => error@ is Timeout && error@->Timeout_upstream
                == u@,
            DnsProxyError::Overloaded { upstream: u, protocol: p } => error@ is Overloaded
                && error@->Overloaded_upstream == u@ && error@->protocol == p@,
            DnsProxyError::Upstream(UpstreamError::ConnectionFailed { upstream: u, reason: r }) =>
                error@ is ConnectionFailed && error@->ConnectionFailed_upstream == u@
                && error@->ConnectionFailed_reason == r@,
            DnsProxyError::Upstream(UpstreamError::RequestFailed { upstream: u, reason: r }) =>
                error@ is RequestFailed && error@->RequestFailed_upstream == u@
                && error@->RequestFailed_reason == r@,
            DnsProxyError::SniRewrite(SniRewriteError::NoMatchingBaseDomain { hostname: h }) =>
                error@ is NoMatchingBaseDomain && error@->hostname == h@,
            DnsProxyError::Certificate(CertificateError::LoadFailed { path: p, reason: r }) =>
                error@ is LoadFailed && error@->path == p@ && error@->LoadFailed_reason == r@,
            DnsProxyError::Certificate(CertificateError::InvalidFormat { reason: r }) => error@
                is InvalidFormat && error@->InvalidFormat_reason == r@,
            DnsProxyError::Certificate(CertificateError::PrivateKey { reason: r }) => error@
                is PrivateKey && error@->PrivateKey_reason == r@,
            DnsProxyError::Certificate(CertificateError::NotConfigured { domain: d }) => error@
                is NotConfigured && error@->domain == d@,
        },
{
}

} // verus!
