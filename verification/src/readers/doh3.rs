//! DNS over HTTP/3: one request, from its head to its answer.
use crate::config::{AppConfig, HttpUpstreamConfig};
use crate::error;
use crate::error::{DnsProxyError, DnsProxyResult, ErrorView};
use crate::metrics;
use crate::metrics::{Metrics, MetricsSnapshot};
use crate::octets;
use crate::proxy::http::DohPlan;
use crate::proxy::request;
use crate::proxy::request::{Refusal, RefusalView, RequestHead, MAX_DNS_MESSAGE_SIZE};
use crate::readers::streams;
use crate::rewrite::SniRewriterType;
use crate::rewriters::base::BaseSniRewriter;
use crate::sni::{RewriteResult, RewriteView};
use crate::text;
use crate::tls_utils::roots;
use crate::tls_utils::roots::AuthorityFile;
use crate::upstream::headers::HeaderField;
use crate::upstream::lease_pool;
use crate::upstream::quic_pool::Http3ConnectionPool;
use std::sync::Arc;
use vstd::prelude::*;

verus! {

/// A DoH3 listener. `M` shares the metrics with other listeners.
pub struct DoH3Server<M> {
    pub config: Arc<AppConfig>,
    pub rewriter: SniRewriterType,
    pub metrics: M,
    pub pool: Http3ConnectionPool,
}

impl<M> DoH3Server<M> {
    /// Whether the listener has just been made.
    pub open spec fn is_fresh(
        &self,
        config: Arc<AppConfig>,
        rewriter: SniRewriterType,
        metrics: M,
    ) -> bool {
        &&& self.config == config
        &&& self.rewriter == rewriter
        &&& self.metrics == metrics
        &&& self.pool.leases.inv()
        &&& self.pool.leases.slots() == Seq::<lease_pool::SlotView>::empty()
        &&& self.pool.leases.capacity() == config.limits.max_upstream_pool_entries
    }

    /// A listener with its own trust store. `native` are the certificates of the
    /// platform, `authorities` the configured bundle.
    pub fn new(
        config: Arc<AppConfig>,
        rewriter: SniRewriterType,
        metrics: M,
        native: &Vec<Vec<u8>>,
        authorities: Option<&AuthorityFile>,
    ) -> (r: DnsProxyResult<Self>)
        ensures
            match r {
                Ok(server) => {
                    &&& roots::is_loaded(Ok(server.pool.root_store), native@, authorities)
                    &&& server.is_fresh(config, rewriter, metrics)
                },
                Err(error) => roots::is_loaded(Err(error), native@, authorities),
            },
    {
        match roots::load_upstream_root_store(native, authorities) {
            Ok(root_store) => Ok(
                DoH3Server::with_root_store(config, rewriter, metrics, root_store),
            ),
            Err(error) => Err(error),
        }
    }

    /// A listener with a given trust store.
    pub fn with_root_store(
        config: Arc<AppConfig>,
        rewriter: SniRewriterType,
        metrics: M,
        root_store: Arc<rustls::RootCertStore>,
    ) -> (r: Self)
        ensures
            r.is_fresh(config, rewriter, metrics),
            r.pool.root_store == root_store,
    {
        let pool = Http3ConnectionPool::with_root_store(
            config.limits.max_upstream_pool_entries,
            root_store,
        );
        DoH3Server { config, rewriter, metrics, pool }
    }
}

/// The server name of a connection, which DoH3 cannot do without.
pub fn connection_server_name(server_name: Option<&str>) -> (r: DnsProxyResult<String>)
    ensures
        match server_name {
            Some(name) => r matches Ok(found) && found@ == name@,
            None => r matches Err(error) && error@ == ErrorView::InvalidInput(
                "DoH3 requires TLS SNI hostname"@,
            ),
        },
{
    streams::required_server_name(server_name, "DoH3 requires TLS SNI hostname")
}

/// Counts a connection that failed as an error of the upstream.
pub fn settle_connection(result: &DnsProxyResult<()>, metrics: &mut Metrics)
    ensures
        final(metrics)@ == if *result is Err {
            old(metrics)@.with_upstream_error()
        } else {
            old(metrics)@
        },
{
    match result {
        Ok(()) => {},
        Err(_) => metrics.record_upstream_error(),
    }
}

/// The error for a refused request.
pub open spec fn refusal_error(
    refusal: RefusalView,
    head: RequestHead,
    request_path: Seq<char>,
) -> ErrorView {
    match refusal {
        RefusalView::Path => ErrorView::InvalidInput("DoH3 request path must be "@ + request_path),
        RefusalView::MissingHost => ErrorView::InvalidInput(
            "Missing or invalid Host header in "@ + head.method@ + " request to "@ + head.uri@,
        ),
        RefusalView::InvalidHost => ErrorView::InvalidInput("Invalid DoH3 Host header"@),
        RefusalView::HostMismatch { host } => ErrorView::InvalidInput(
            "DoH3 Host does not match TLS SNI"@,
        ),
        RefusalView::Method => ErrorView::InvalidInput("DoH3 only supports GET and POST"@),
        RefusalView::Query(fault) => ErrorView::InvalidInput(request::query_text(fault, "DoH3"@)),
        RefusalView::ContentType => ErrorView::InvalidInput(
            "DoH3 POST Content-Type must be application/dns-message"@,
        ),
        RefusalView::NoBaseDomain { host } => ErrorView::NoMatchingBaseDomain { hostname: host },
    }
}

/// The error for a refused request.
pub fn error_for_refusal(refusal: &Refusal, head: &RequestHead, request_path: &str) -> (r:
    DnsProxyError)
    ensures
        r@ == refusal_error(refusal@, *head, request_path@),
{
    match refusal {
        Refusal::Path => DnsProxyError::InvalidInput(
            text::join("DoH3 request path must be ", request_path),
        ),
        Refusal::MissingHost => {
            let mut message = text::join3(
                "Missing or invalid Host header in ",
                head.method.as_str(),
                " request to ",
            );
            message.append(head.uri.as_str());
            DnsProxyError::InvalidInput(message)
        },
        Refusal::InvalidHost => DnsProxyError::InvalidInput("Invalid DoH3 Host header".to_owned()),
        Refusal::HostMismatch { .. } => DnsProxyError::InvalidInput(
            "DoH3 Host does not match TLS SNI".to_owned(),
        ),
        Refusal::Method => DnsProxyError::InvalidInput(
            "DoH3 only supports GET and POST".to_owned(),
        ),
        Refusal::Query(fault) => DnsProxyError::InvalidInput(
            request::describe_query(*fault, "DoH3"),
        ),
        Refusal::ContentType => DnsProxyError::InvalidInput(
            "DoH3 POST Content-Type must be application/dns-message".to_owned(),
        ),
        Refusal::NoBaseDomain { host } => error::no_matching_base_domain(host.as_str()),
    }
}

/// How far a request has come.
#[derive(Debug, Clone, Copy, PartialEq, Eq, Structural)]
pub enum Doh3Stage {
    /// The body of the request is being read.
    ReadBody,
    /// The request is with the upstream.
    Forward,
    /// The head of the response is being sent.
    SendHead,
    /// The body of the response is being sent.
    SendBody,
    /// The end of the response is being sent.
    Finish,
    /// The request is done.
    Over,
}

/// What came of the last step.
#[derive(Debug, Clone)]
pub enum Doh3Event {
    /// The listener is being shut down.
    Shutdown,
    /// The time for the step ran out.
    TimedOut,
    /// The step failed, with the transport's words.
    Failed(String),
    /// The step is done.
    Done,
    /// A part of the body came.
    Chunk(Vec<u8>),
    /// The body is at its end.
    End,
    /// The upstream answered.
    Response { status: u16, headers: Vec<HeaderField>, body: Vec<u8> },
    /// The upstream did not answer.
    Refused(DnsProxyError),
}

/// What is to be done next.
#[derive(Debug)]
pub enum Doh3Action {
    /// Read a part of the body.
    ReadBody,
    /// Send the request to the upstream.
    Forward,
    /// Send the head of the response.
    SendHead { status: u16, headers: Vec<HeaderField> },
    /// Send the body of the response.
    SendBody(Vec<u8>),
    Finish,
    /// The request is done. An error is answered.
    Return(DnsProxyResult<()>),
}

/// A request that may go upstream.
#[derive(Debug, Clone)]
pub struct Doh3Exchange {
    pub plan: DohPlan,
    pub body: Vec<u8>,
    pub stage: Doh3Stage,
    /// The body of the response, until it is sent.
    pub response: Vec<u8>,
}

/// What an event has a request do.
#[verifier::ext_equal]
pub enum Doh3Reaction {
    Fail(ErrorView),
    /// Stop without an answer.
    Stop,
    /// Read on, with so much of the body.
    ReadBody(Seq<u8>),
    Forward,
    /// Send this head, and keep this body to be sent next.
    SendHead { status: u16, headers: Vec<HeaderField>, body: Seq<u8> },
    SendBody(Seq<u8>),
    Finish,
}

impl Doh3Exchange {
    /// Whether no more than a DNS message has been read.
    pub open spec fn inv(&self) -> bool {
        self.body@.len() <= MAX_DNS_MESSAGE_SIZE
    }

    /// Whether an event can come at this stage.
    pub open spec fn awaits(&self, event: Doh3Event) -> bool {
        match self.stage {
            Doh3Stage::ReadBody => event is Shutdown || event is TimedOut || event is Failed
                || event is Chunk || event is End,
            Doh3Stage::Forward => event is Shutdown || event is Response || event is Refused,
            Doh3Stage::SendHead | Doh3Stage::SendBody | Doh3Stage::Finish => event is TimedOut
                || event is Failed || event is Done,
            Doh3Stage::Over => false,
        }
    }

    /// What a request was about when its time ran out.
    pub open spec fn operation(&self) -> Seq<char> {
        match self.stage {
            Doh3Stage::ReadBody => "DoH3 request body"@,
            Doh3Stage::SendHead => "DoH3 client response headers"@,
            Doh3Stage::SendBody => "DoH3 client response body"@,
            _ => "DoH3 client response finish"@,
        }
    }

    /// What is said of a step that failed.
    pub open spec fn complaint(&self) -> Seq<char> {
        match self.stage {
            Doh3Stage::ReadBody => "Failed to read DoH3 request body: "@,
            Doh3Stage::SendHead => "Failed to send DoH3 response: "@,
            Doh3Stage::SendBody => "Failed to send DoH3 response body: "@,
            _ => "Failed to finish DoH3 response: "@,
        }
    }

    /// What an event has a request do.
    pub open spec fn reaction(&self, event: Doh3Event) -> Doh3Reaction {
        match event {
            Doh3Event::Shutdown => Doh3Reaction::Stop,
            Doh3Event::TimedOut => Doh3Reaction::Fail(
                ErrorView::Timeout { upstream: self.operation() },
            ),
            Doh3Event::Failed(reason) => Doh3Reaction::Fail(
                ErrorView::Protocol(self.complaint() + reason@),
            ),
            Doh3Event::Chunk(bytes) => if self.body@.len() + bytes@.len() > MAX_DNS_MESSAGE_SIZE {
                Doh3Reaction::Fail(
                    ErrorView::InvalidInput("DoH3 POST body exceeds the DNS message limit"@),
                )
            } else {
                Doh3Reaction::ReadBody(self.body@ + bytes@)
            },
            Doh3Event::End => match request::message_fault(
                self.body@.len(),
                "DoH3 POST body"@,
            ) {
                Some(fault) => Doh3Reaction::Fail(ErrorView::InvalidInput(fault)),
                None => Doh3Reaction::Forward,
            },
            Doh3Event::Response { status, headers, body } => Doh3Reaction::SendHead {
                status,
                headers,
                body: body@,
            },
            Doh3Event::Refused(error) => Doh3Reaction::Fail(
                ErrorView::RequestFailed {
                    upstream: self.plan.upstream_uri@,
                    reason: error::message_of(error@),
                },
            ),
            Doh3Event::Done => match self.stage {
                Doh3Stage::SendHead => Doh3Reaction::SendBody(self.response@),
                Doh3Stage::SendBody => Doh3Reaction::Finish,
                _ => Doh3Reaction::Stop,
            },
        }
    }

    /// The counters after an event.
    pub open spec fn counted(
        &self,
        event: Doh3Event,
        elapsed_micros: u128,
        before: MetricsSnapshot,
    ) -> MetricsSnapshot {
        match event {
            Doh3Event::Response { status, headers, body } => {
                let success = request::is_success_status(status);
                let counted = before.with_request(
                    success,
                    self.body@.len() as u64,
                    body@.len() as u64,
                    elapsed_micros,
                );
                if success {
                    counted
                } else {
                    counted.with_upstream_error()
                }
            },
            Doh3Event::Refused(_) => before.with_request(
                false,
                self.body@.len() as u64,
                0,
                elapsed_micros,
            ).with_upstream_error(),
            _ => before,
        }
    }

    /// Whether an action does what a reaction asks for, and the request has moved on.
    pub open spec fn obeys(&self, reaction: Doh3Reaction, next: Doh3Exchange, action: Doh3Action)
        -> bool {
        &&& next.plan == self.plan
        &&& next.body@ == if let Doh3Reaction::ReadBody(read) = reaction {
            read
        } else {
            self.body@
        }
        &&& next.response@ == match reaction {
            Doh3Reaction::SendHead { status, headers, body } => body,
            Doh3Reaction::SendBody(_) => Seq::<u8>::empty(),
            _ => self.response@,
        }
        &&& match reaction {
            Doh3Reaction::Fail(fault) => {
                &&& action matches Doh3Action::Return(Err(error)) && error@ == fault
                &&& next.stage is Over
            },
            Doh3Reaction::Stop => action matches Doh3Action::Return(Ok(_)) && next.stage is Over,
            Doh3Reaction::ReadBody(_) => action is ReadBody && next.stage is ReadBody,
            Doh3Reaction::Forward => action is Forward && next.stage is Forward,
            Doh3Reaction::SendHead { status, headers, body } => action == (
            Doh3Action::SendHead { status, headers }) && next.stage is SendHead,
            Doh3Reaction::SendBody(bytes) => {
                &&& action matches Doh3Action::SendBody(sent) && sent@ == bytes
                &&& next.stage is SendBody
            },
            Doh3Reaction::Finish => action is Finish && next.stage is Finish,
        }
    }

    fn timed_out(&self) -> (r: DnsProxyError)
        ensures
            r@ == (ErrorView::Timeout { upstream: self.operation() }),
    {
        match self.stage {
            Doh3Stage::ReadBody => error::timeout("DoH3 request body"),
            Doh3Stage::SendHead => error::timeout("DoH3 client response headers"),
            Doh3Stage::SendBody => error::timeout("DoH3 client response body"),
            _ => error::timeout("DoH3 client response finish"),
        }
    }

    fn failed(&self, reason: &str) -> (r: DnsProxyError)
        ensures
            r@ == ErrorView::Protocol(self.complaint() + reason@),
    {
        let complaint = match self.stage {
            Doh3Stage::ReadBody => "Failed to read DoH3 request body: ",
            Doh3Stage::SendHead => "Failed to send DoH3 response: ",
            Doh3Stage::SendBody => "Failed to send DoH3 response body: ",
            _ => "Failed to finish DoH3 response: ",
        };
        DnsProxyError::Protocol(text::join(complaint, reason))
    }

    fn give_up(&mut self, error: DnsProxyError) -> (r: Doh3Action)
        ensures
            *final(self) == (Doh3Exchange { stage: Doh3Stage::Over, ..*old(self) }),
            r == Doh3Action::Return(Err(error)),
    {
        self.stage = Doh3Stage::Over;
        Doh3Action::Return(Err(error))
    }

    /// Takes what came of the last step, and tells the next one. What the upstream
    /// answered is counted.
    pub fn step(&mut self, event: Doh3Event, elapsed_micros: u128, metrics: &mut Metrics) -> (r:
        Doh3Action)
        requires
            old(self).inv(),
            old(self).awaits(event),
        ensures
            final(self).inv(),
            old(self).obeys(old(self).reaction(event), *final(self), r),
            final(metrics)@ == old(self).counted(event, elapsed_micros, old(metrics)@),
    {
        let bytes_received: u64 = self.body.len() as u64;
        match event {
            Doh3Event::Shutdown => {
                self.stage = Doh3Stage::Over;
                Doh3Action::Return(Ok(()))
            },
            Doh3Event::TimedOut => {
                let error = self.timed_out();
                self.give_up(error)
            },
            Doh3Event::Failed(reason) => {
                let error = self.failed(reason.as_str());
                self.give_up(error)
            },
            Doh3Event::Chunk(bytes) => {
                if self.body.len().saturating_add(bytes.len()) > MAX_DNS_MESSAGE_SIZE {
                    return self.give_up(
                        DnsProxyError::InvalidInput(
                            "DoH3 POST body exceeds the DNS message limit".to_owned(),
                        ),
                    );
                }
                octets::append(&mut self.body, bytes.as_slice());
                Doh3Action::ReadBody
            },
            Doh3Event::End => match request::validate_dns_message(
                self.body.as_slice(),
                "DoH3 POST body",
            ) {
                Err(fault) => self.give_up(DnsProxyError::InvalidInput(fault)),
                Ok(()) => {
                    self.stage = Doh3Stage::Forward;
                    Doh3Action::Forward
                },
            },
            Doh3Event::Response { status, headers, body } => {
                let bytes_sent: u64 = body.len() as u64;
                let success = request::is_success(status);
                metrics.record_request(success, bytes_received, bytes_sent, elapsed_micros);
                if !success {
                    metrics.record_upstream_error();
                }
                self.response = body;
                self.stage = Doh3Stage::SendHead;
                Doh3Action::SendHead { status, headers }
            },
            Doh3Event::Refused(error) => {
                metrics.record_request(false, bytes_received, 0, elapsed_micros);
                metrics.record_upstream_error();
                let reason = error.message();
                let error = error::request_failed(
                    self.plan.upstream_uri.as_str(),
                    reason.as_str(),
                );
                self.give_up(error)
            },
            Doh3Event::Done => match self.stage {
                Doh3Stage::SendHead => {
                    let mut sent: Vec<u8> = Vec::new();
                    std::mem::swap(&mut sent, &mut self.response);
                    self.stage = Doh3Stage::SendBody;
                    Doh3Action::SendBody(sent)
                },
                Doh3Stage::SendBody => {
                    self.stage = Doh3Stage::Finish;
                    Doh3Action::Finish
                },
                _ => {
                    self.stage = Doh3Stage::Over;
                    Doh3Action::Return(Ok(()))
                },
            },
        }
    }
}

/// Whether an exchange is the start of a request that may go upstream.
pub open spec fn is_start(
    exchange: Doh3Exchange,
    target: RewriteView,
    head: RequestHead,
    endpoint: HttpUpstreamConfig,
) -> bool {
    &&& exchange.plan.leads_to(target, endpoint, request::option_text(head.query))
    &&& exchange.body@ == Seq::<u8>::empty()
    &&& exchange.response@ == Seq::<u8>::empty()
    &&& exchange.stage == if head.is_post() {
        Doh3Stage::ReadBody
    } else {
        Doh3Stage::Forward
    }
}

/// What follows from a decision on a request. A rewrite is counted.
pub fn continue_request(
    head: &RequestHead,
    decision: Result<RewriteResult, Refusal>,
    request_path: &str,
    endpoint: &HttpUpstreamConfig,
    metrics: &mut Metrics,
) -> (r: DnsProxyResult<Doh3Exchange>)
    ensures
        match request::decision_view(decision) {
            Err(refusal) => {
                &&& r matches Err(error) && error@ == refusal_error(refusal, *head, request_path@)
                &&& final(metrics)@ == old(metrics)@
            },
            Ok(target) => {
                &&& r matches Ok(exchange) && is_start(exchange, target, *head, *endpoint)
                &&& final(metrics)@ == old(metrics)@.with_sni_rewrite()
            },
        },
{
    match decision {
        Err(refusal) => Err(error_for_refusal(&refusal, head, request_path)),
        Ok(rewrite) => {
            metrics.record_sni_rewrite();
            let query = match &head.query {
                Some(query) => Some(query.as_str()),
                None => None,
            };
            let upstream_uri = request::upstream_uri(
                rewrite.target_hostname.as_str(),
                endpoint.port,
                endpoint.path.as_str(),
                query,
            );
            let stage = if text::same(head.method.as_str(), "POST") {
                Doh3Stage::ReadBody
            } else {
                Doh3Stage::Forward
            };
            Ok(
                Doh3Exchange {
                    plan: DohPlan { rewrite, upstream_uri },
                    body: Vec::new(),
                    stage,
                    response: Vec::new(),
                },
            )
        },
    }
}

/// Decides on a request by its head. One that keeps every rule in a plain spelling is not
/// refused. A rewrite is counted.
pub fn start_request(
    head: &RequestHead,
    request_path: &str,
    tls_sni: &str,
    rewriter: &BaseSniRewriter,
    endpoint: &HttpUpstreamConfig,
    metrics: &mut Metrics,
) -> (r: DnsProxyResult<Doh3Exchange>)
    ensures
        match request::admission(
            *head,
            request_path@,
            text::lower(tls_sni@),
            rewriter.bases(),
            rewriter.suffix(),
            head.canonical_host(),
            request::query_fault(request::option_text(head.query)),
        ) {
            Err(refusal) => {
                &&& r matches Err(error) && error@ == refusal_error(refusal, *head, request_path@)
                &&& final(metrics)@ == old(metrics)@
            },
            Ok(target) => {
                &&& r matches Ok(exchange) && is_start(exchange, target, *head, *endpoint)
                &&& final(metrics)@ == old(metrics)@.with_sni_rewrite()
            },
        },
        request::is_plainly_admissible(
            *head,
            request_path@,
            text::lower(tls_sni@),
            rewriter.bases(),
            rewriter.suffix(),
        ) ==> r is Ok,
{
    let server_name = text::to_lower(tls_sni);
    let decision = request::decide_request(head, request_path, server_name.as_str(), rewriter);
    continue_request(head, decision, request_path, endpoint, metrics)
}

/// The HTTP status for an error.
pub open spec fn status_of(error: ErrorView) -> u16 {
    let message = error::message_of(error);
    if text::has_text(message, "request path"@) {
        404
    } else if text::has_text(message, "only supports GET and POST"@) {
        405
    } else if text::has_text(message, "Content-Type"@) {
        415
    } else if text::has_text(message, "exceeds"@) || text::has_text(message, "65535 bytes"@) {
        413
    } else {
        match error {
            ErrorView::Timeout { .. } => 504,
            ErrorView::Overloaded { .. } => 503,
            ErrorView::ConnectionFailed { .. } | ErrorView::RequestFailed { .. } => 502,
            _ => 400,
        }
    }
}

/// The answer to a request that failed.
#[derive(Debug, Clone)]
pub struct Doh3ErrorResponse {
    pub status: u16,
    pub content_type: String,
    /// The methods that are allowed, where another one was used.
    pub allow: Option<String>,
    pub body: String,
}

impl Doh3ErrorResponse {
    /// Whether this is the answer for an error.
    pub open spec fn answers(&self, error: ErrorView) -> bool {
        &&& self.status == status_of(error)
        &&& self.content_type@ == "text/plain; charset=utf-8"@
        &&& self.body@ == error::message_of(error)
        &&& if status_of(error) == 405 {
            self.allow matches Some(methods) && methods@ == "GET, POST"@
        } else {
            self.allow is None
        }
    }
}

/// The answer to a request that failed.
pub fn error_response(error: &DnsProxyError) -> (r: Doh3ErrorResponse)
    ensures
        r.answers(error@),
{
    let message = error.message();
    let status: u16 = if text::contains(message.as_str(), "request path") {
        404
    } else if text::contains(message.as_str(), "only supports GET and POST") {
        405
    } else if text::contains(message.as_str(), "Content-Type") {
        415
    } else if text::contains(message.as_str(), "exceeds") || text::contains(
        message.as_str(),
        "65535 bytes",
    ) {
        413
    } else {
        match error {
            DnsProxyError::Timeout { .. } => 504,
            DnsProxyError::Overloaded { .. } => 503,
            DnsProxyError::Upstream(_) => 502,
            _ => 400,
        }
    };
    let allow = if status == 405 {
        Some("GET, POST".to_owned())
    } else {
        None
    };
    Doh3ErrorResponse {
        status,
        content_type: "text/plain; charset=utf-8".to_owned(),
        allow,
        body: message,
    }
}

/// A request that goes upstream is counted once, when the upstream has answered or failed:
/// nothing that can happen before or afterwards is counted.
pub proof fn forwarded_requests_are_counted_once(
    exchange: Doh3Exchange,
    event: Doh3Event,
    next: Doh3Exchange,
    action: Doh3Action,
    elapsed_micros: u128,
    before: MetricsSnapshot,
)
    requires
        exchange.awaits(event),
        exchange.obeys(exchange.reaction(event), next, action),
    ensures
        !(exchange.stage is Forward) ==> exchange.counted(event, elapsed_micros, before) == before,
        exchange.stage is Forward && !(event is Shutdown) ==> exchange.counted(
            event,
            elapsed_micros,
            before,
        ).total_requests == metrics::wrapped_sum(before.total_requests, 1),
        exchange.stage is Forward ==> next.stage is SendHead || next.stage is Over,
        exchange.stage is SendHead || exchange.stage is SendBody || exchange.stage is Finish ==> !(
        next.stage is ReadBody || next.stage is Forward),
{
}

/// The client gets what the upstream answered: its status and headers first, and then its
/// body.
pub proof fn clients_get_the_upstream_response(
    exchange: Doh3Exchange,
    status: u16,
    headers: Vec<HeaderField>,
    body: Vec<u8>,
    answered: Doh3Exchange,
    first: Doh3Action,
    sent: Doh3Exchange,
    second: Doh3Action,
)
    requires
        exchange.obeys(
            exchange.reaction(Doh3Event::Response { status, headers, body }),
            answered,
            first,
        ),
        answered.obeys(answered.reaction(Doh3Event::Done), sent, second),
    ensures
        first == (Doh3Action::SendHead { status, headers }),
        second matches Doh3Action::SendBody(bytes) && bytes@ == body@,
{
}

/// Parts of a body are put one behind the other as long as there are no more than 65535
/// octets, and a body of 12 to 65535 octets goes upstream; any other is refused.
pub proof fn bodies_of_a_message_go_upstream(exchange: Doh3Exchange, part: Vec<u8>)
    ensures
        exchange.body@.len() + part@.len() <= 65535 ==> exchange.reaction(Doh3Event::Chunk(part))
            == Doh3Reaction::ReadBody(exchange.body@ + part@),
        exchange.body@.len() + part@.len() > 65535 ==> exchange.reaction(
            Doh3Event::Chunk(part),
        ) is Fail,
        12 <= exchange.body@.len() <= 65535 ==> exchange.reaction(Doh3Event::End) is Forward,
        !(12 <= exchange.body@.len() <= 65535) ==> exchange.reaction(Doh3Event::End) is Fail,
{
}

/// A request does what its reaction asks for: what was read is kept, and what is sent is
/// sent as it is. A client's request that is stopped, or done, ends without an error.
pub proof fn requests_do_what_is_asked(
    exchange: Doh3Exchange,
    reaction: Doh3Reaction,
    next: Doh3Exchange,
    action: Doh3Action,
)
    requires
        exchange.obeys(reaction, next, action),
    ensures
        next.plan == exchange.plan,
        reaction matches Doh3Reaction::ReadBody(read) ==> action is ReadBody && next.body@ == read
            && next.stage is ReadBody,
        !(reaction is ReadBody) ==> next.body@ == exchange.body@,
        reaction is Forward ==> action is Forward && next.stage is Forward,
        reaction is Finish ==> action is Finish && next.stage is Finish,
        reaction is Stop ==> (action matches Doh3Action::Return(Ok(_))) && next.stage is Over,
        reaction matches Doh3Reaction::Fail(fault) ==> (action matches Doh3Action::Return(
            Err(error),
        ) && error@ == fault) && next.stage is Over,
{
}

/// After the body of the response its end is sent, and then the request is done; a shutdown
/// stops a request at any time, and a step that fails or takes too long ends it with an
/// error.
pub proof fn requests_come_to_their_end(exchange: Doh3Exchange, reason: String)
    ensures
        exchange.stage is SendBody ==> exchange.reaction(Doh3Event::Done) is Finish,
        exchange.stage is Finish ==> exchange.reaction(Doh3Event::Done) is Stop,
        exchange.reaction(Doh3Event::Shutdown) is Stop,
        exchange.reaction(Doh3Event::TimedOut) is Fail,
        exchange.reaction(Doh3Event::Failed(reason)) is Fail,
        exchange.stage is ReadBody || exchange.stage is Forward ==> exchange.awaits(
            Doh3Event::Shutdown,
        ),
{
}

/// An answer of the upstream is counted with the octets of the request and the response, as
/// a success where its status is from 200 to 299, and else as a failure and an upstream
/// error; so is an upstream that did not answer, without octets sent.
pub proof fn answers_are_counted_by_status(
    exchange: Doh3Exchange,
    status: u16,
    headers: Vec<HeaderField>,
    body: Vec<u8>,
    failure: DnsProxyError,
    elapsed_micros: u128,
    before: MetricsSnapshot,
)
    requires
        before.successful_requests < u64::MAX,
        before.failed_requests < u64::MAX,
        before.upstream_errors < u64::MAX,
        exchange.body@.len() <= 65535,
        body@.len() <= u64::MAX,
        before.bytes_received + exchange.body@.len() <= u64::MAX,
        before.bytes_sent + body@.len() <= u64::MAX,
    ensures
        ({
            let after = exchange.counted(
                Doh3Event::Response { status, headers, body },
                elapsed_micros,
                before,
            );
            let good = 200 <= status && status <= 299;
            &&& after.bytes_received == before.bytes_received + exchange.body@.len()
            &&& after.bytes_sent == before.bytes_sent + body@.len()
            &&& good ==> after.successful_requests == before.successful_requests + 1
                && after.failed_requests == before.failed_requests && after.upstream_errors
                == before.upstream_errors
            &&& !good ==> after.failed_requests == before.failed_requests + 1
                && after.successful_requests == before.successful_requests && after.upstream_errors
                == before.upstream_errors + 1
        }),
        ({
            let after = exchange.counted(Doh3Event::Refused(failure), elapsed_micros, before);
            &&& after.bytes_received == before.bytes_received + exchange.body@.len()
            &&& after.bytes_sent == before.bytes_sent
            &&& after.failed_requests == before.failed_requests + 1
            &&& after.upstream_errors == before.upstream_errors + 1
        }),
{
}

/// A request that was admitted begins with the target of its rewrite and the upstream URI
/// for its own query: with its body to be read where it is a POST request, and with the
/// upstream otherwise.
pub proof fn admitted_requests_begin(
    exchange: Doh3Exchange,
    target: RewriteView,
    head: RequestHead,
    endpoint: HttpUpstreamConfig,
)
    requires
        is_start(exchange, target, head, endpoint),
    ensures
        exchange.plan.rewrite.target_hostname@ == target.target_hostname,
        exchange.plan.upstream_uri@ == request::upstream_uri_text(
            target.target_hostname,
            endpoint.port,
            endpoint.path@,
            match head.query {
                Some(query) => Some(query@),
                None => None,
            },
        ),
        exchange.body@.len() == 0,
        exchange.stage is ReadBody <==> head.method@ == "POST"@,
        exchange.stage is Forward <==> head.method@ != "POST"@,
{
}

/// An answer has the status and the words of its error, says that these are plain text, and
/// names the methods that are allowed exactly where another one was used.
pub proof fn answers_have_the_words_of_their_errors(response: Doh3ErrorResponse, error: ErrorView)
    requires
        response.answers(error),
    ensures
        response.status == status_of(error),
        response.body@ == error::message_of(error),
        response.content_type@ == "text/plain; charset=utf-8"@,
        response.allow is Some <==> response.status == 405,
        response.allow matches Some(methods) ==> methods@ == "GET, POST"@,
{
}

/// Whatever can come of a step is taken.
pub proof fn requests_take_whatever_can_come(
    exchange: Doh3Exchange,
    reason: String,
    error: DnsProxyError,
    part: Vec<u8>,
    answer: Doh3Event,
)
    requires
        answer is Response,
    ensures
        exchange.stage is ReadBody ==> exchange.awaits(Doh3Event::Chunk(part)) && exchange.awaits(
            Doh3Event::End,
        ) && exchange.awaits(Doh3Event::TimedOut) && exchange.awaits(Doh3Event::Failed(reason)),
        exchange.stage is Forward ==> exchange.awaits(answer) && exchange.awaits(
            Doh3Event::Refused(error),
        ),
        exchange.stage is SendHead || exchange.stage is SendBody || exchange.stage is Finish
            ==> exchange.awaits(Doh3Event::Done) && exchange.awaits(Doh3Event::TimedOut)
            && exchange.awaits(Doh3Event::Failed(reason)),
        exchange.inv() <==> exchange.body@.len() <= 65535,
{
}

/// A request below no base domain is refused as such, by its host; every other refusal is
/// of invalid input.
pub proof fn refusals_are_errors_of_their_kind(
    refusal: RefusalView,
    head: RequestHead,
    request_path: Seq<char>,
)
    ensures
        refusal matches RefusalView::NoBaseDomain { host } ==> refusal_error(
            refusal,
            head,
            request_path,
        ) == (ErrorView::NoMatchingBaseDomain { hostname: host }),
        !(refusal is NoBaseDomain) ==> refusal_error(refusal, head, request_path) is InvalidInput,
{
}

/// The kind of an error tells what went wrong: a client that took too long is a timeout, a
/// step that failed a protocol error with the transport's words, a body that is too large or
/// no message invalid input, and an upstream that did not answer a failed request to the URI
/// with what it says.
pub proof fn faults_are_of_their_kind(
    exchange: Doh3Exchange,
    reason: String,
    part: Vec<u8>,
    failure: DnsProxyError,
)
    ensures
        exchange.reaction(Doh3Event::TimedOut) matches Doh3Reaction::Fail(fault)
            && fault is Timeout,
        exchange.reaction(Doh3Event::Failed(reason)) matches Doh3Reaction::Fail(
            ErrorView::Protocol(told),
        ) && text::ends_with(told, reason@),
        exchange.reaction(Doh3Event::Chunk(part)) matches Doh3Reaction::Fail(fault)
            ==> fault is InvalidInput,
        exchange.reaction(Doh3Event::End) matches Doh3Reaction::Fail(fault)
            ==> fault is InvalidInput,
        exchange.reaction(Doh3Event::Refused(failure)) == Doh3Reaction::Fail(
            ErrorView::RequestFailed {
                upstream: exchange.plan.upstream_uri@,
                reason: error::message_of(failure@),
            },
        ),
{
    text::ends_and_beginnings(exchange.complaint(), reason@, ' ');
}

} // verus!
