//! DNS over HTTPS (HTTP/1 and HTTP/2): one request, from its head to its answer.
//!
//! [`start_request`] decides on the head. A POST request then has its body read and
//! handed to [`DohPlan::receive_body`]; what results goes upstream, and
//! [`DohForward::settle`] books the outcome.
use crate::config::HttpUpstreamConfig;
use crate::metrics::Metrics;
use crate::octets;
use crate::proxy::request;
use crate::proxy::request::{Refusal, RefusalView, RequestHead};
use crate::rewriters::base::BaseSniRewriter;
use crate::sni::{RewriteResult, RewriteView};
use crate::text;
use vstd::prelude::*;

verus! {

/// What the client is told about a refusal.
pub open spec fn refusal_text(
    refusal: RefusalView,
    request_path: Seq<char>,
    tls_sni: Seq<char>,
) -> Seq<char> {
    match refusal {
        RefusalView::Path => "DoH request path must be "@ + request_path,
        RefusalView::MissingHost => "Failed to extract Host header from request"@,
        RefusalView::InvalidHost => "Invalid DoH Host header"@,
        RefusalView::HostMismatch { host } => "DoH Host ("@ + host + ") does not match TLS SNI ("@
            + tls_sni + ")"@,
        RefusalView::Method => "DoH only supports GET and POST"@,
        RefusalView::Query(fault) => request::query_text(fault, "DoH"@),
        RefusalView::ContentType => "DoH POST Content-Type must be application/dns-message"@,
        RefusalView::NoBaseDomain { host } => "SNI rewrite operation failed"@,
    }
}

/// What the client is told about a refusal.
pub fn describe_refusal(refusal: &Refusal, request_path: &str, tls_sni: &str) -> (r: String)
    ensures
        r@ == refusal_text(refusal@, request_path@, tls_sni@),
{
    match refusal {
        Refusal::Path => text::join("DoH request path must be ", request_path),
        Refusal::MissingHost => "Failed to extract Host header from request".to_owned(),
        Refusal::InvalidHost => "Invalid DoH Host header".to_owned(),
        Refusal::HostMismatch { host } => {
            let mut message = text::join3(
                "DoH Host (",
                host.as_str(),
                ") does not match TLS SNI (",
            );
            message.append(tls_sni);
            message.append(")");
            message
        },
        Refusal::Method => "DoH only supports GET and POST".to_owned(),
        Refusal::Query(fault) => request::describe_query(*fault, "DoH"),
        Refusal::ContentType => "DoH POST Content-Type must be application/dns-message".to_owned(),
        Refusal::NoBaseDomain { .. } => "SNI rewrite operation failed".to_owned(),
    }
}

/// The HTTP status for an error, by what its message says.
pub open spec fn status_of(message: Seq<char>) -> u16 {
    if text::has_text(message, "request path"@) {
        404
    } else if text::has_text(message, "only supports GET and POST"@) {
        405
    } else if text::has_text(message, "Content-Type"@) {
        415
    } else if text::has_text(message, "exceeds the DNS message limit"@) || text::has_text(
        message,
        "65535 bytes"@,
    ) {
        413
    } else if text::has_text(message, "Failed to forward HTTP request to upstream"@)
        || text::has_text(message, "upstream response"@) {
        502
    } else {
        400
    }
}

/// The HTTP status for an error, by what its message says.
pub fn error_status(message: &str) -> (r: u16)
    ensures
        r == status_of(message@),
{
    if text::contains(message, "request path") {
        404
    } else if text::contains(message, "only supports GET and POST") {
        405
    } else if text::contains(message, "Content-Type") {
        415
    } else if text::contains(message, "exceeds the DNS message limit") || text::contains(
        message,
        "65535 bytes",
    ) {
        413
    } else if text::contains(message, "Failed to forward HTTP request to upstream")
        || text::contains(message, "upstream response") {
        502
    } else {
        400
    }
}

/// The Content-Type of every error response.
pub open spec fn error_content_type_text() -> Seq<char> {
    "text/plain; charset=utf-8"@
}

/// An answer that the proxy gives itself: a status, a Content-Type and a text.
#[derive(Debug, Clone)]
pub struct DohErrorResponse {
    pub status: u16,
    pub content_type: String,
    pub body: String,
}

impl DohErrorResponse {
    /// Whether this is the answer for an error of the given message.
    pub open spec fn answers(&self, message: Seq<char>) -> bool {
        &&& self.status == status_of(message)
        &&& self.content_type@ == error_content_type_text()
        &&& self.body@ == message
    }
}

/// The answer for an error.
pub fn doh_error_response(message: String) -> (r: DohErrorResponse)
    ensures
        r.answers(message@),
{
    let status: u16 = error_status(message.as_str());
    DohErrorResponse {
        status,
        content_type: "text/plain; charset=utf-8".to_owned(),
        body: message,
    }
}

/// A request that may go upstream.
#[derive(Debug, Clone)]
pub struct DohPlan {
    pub rewrite: RewriteResult,
    /// The URI under which the request goes upstream.
    pub upstream_uri: String,
}

/// A request that goes upstream, with its body.
#[derive(Debug, Clone)]
pub struct DohForward {
    pub plan: DohPlan,
    pub body: Vec<u8>,
}

/// What follows from the head of a request.
#[derive(Debug, Clone)]
pub enum DohStart {
    /// The request is answered at once.
    Refuse(DohErrorResponse),
    /// The body is to be read, up to the size of a DNS message.
    ReadBody(DohPlan),
    /// The request goes upstream without a body.
    Forward(DohForward),
}

impl DohPlan {
    /// Whether this plan takes the request to the rewritten host.
    pub open spec fn leads_to(
        &self,
        target: RewriteView,
        endpoint: HttpUpstreamConfig,
        query: Option<Seq<char>>,
    ) -> bool {
        &&& self.rewrite@ == target
        &&& self.upstream_uri@ == request::upstream_uri_text(
            target.target_hostname,
            endpoint.port,
            endpoint.path@,
            query,
        )
    }
}

/// Whether a start follows from a decision on a request.
pub open spec fn follows(
    start: DohStart,
    decision: Result<RewriteView, RefusalView>,
    head: RequestHead,
    request_path: Seq<char>,
    tls_sni: Seq<char>,
    endpoint: HttpUpstreamConfig,
) -> bool {
    let query = request::option_text(head.query);
    match decision {
        Err(refusal) => start matches DohStart::Refuse(response) && response.answers(
            refusal_text(refusal, request_path, tls_sni),
        ),
        Ok(target) => if head.is_post() {
            start matches DohStart::ReadBody(plan) && plan.leads_to(target, endpoint, query)
        } else {
            start matches DohStart::Forward(forward) && forward.plan.leads_to(
                target,
                endpoint,
                query,
            ) && forward.body@ == Seq::<u8>::empty()
        },
    }
}

/// What follows from a decision on a request. A rewrite is counted.
pub fn continue_request(
    head: &RequestHead,
    decision: Result<RewriteResult, Refusal>,
    request_path: &str,
    tls_sni: &str,
    endpoint: &HttpUpstreamConfig,
    metrics: &mut Metrics,
) -> (r: DohStart)
    ensures
        follows(
            r,
            request::decision_view(decision),
            *head,
            request_path@,
            tls_sni@,
            *endpoint,
        ),
        final(metrics)@ == if decision is Ok {
            old(metrics)@.with_sni_rewrite()
        } else {
            old(metrics)@
        },
{
    match decision {
        Err(refusal) => DohStart::Refuse(
            doh_error_response(describe_refusal(&refusal, request_path, tls_sni)),
        ),
        Ok(rewrite) => {
            metrics.record_sni_rewrite();
            let query = match &head.query {
                Some(query) => Some(query.as_str()),
                None => None,
            };
            let upstream_uri = request::upstream_uri(
                rewrite.target_hostname.as_str(),
                endpoint.port,
                endpoint.path.as_str(),
                query,
            );
            let plan = DohPlan { rewrite, upstream_uri };
            if text::same(head.method.as_str(), "POST") {
                DohStart::ReadBody(plan)
            } else {
                DohStart::Forward(DohForward { plan, body: Vec::new() })
            }
        },
    }
}

/// Decides on a request by its head. One that keeps every rule in a plain spelling is not
/// refused. A rewrite is counted.
pub fn start_request(
    head: &RequestHead,
    request_path: &str,
    tls_sni: &str,
    rewriter: &BaseSniRewriter,
    endpoint: &HttpUpstreamConfig,
    metrics: &mut Metrics,
) -> (r: DohStart)
    ensures
        follows(
            r,
            request::admission(
                *head,
                request_path@,
                tls_sni@,
                rewriter.bases(),
                rewriter.suffix(),
                head.canonical_host(),
                request::query_fault(request::option_text(head.query)),
            ),
            *head,
            request_path@,
            tls_sni@,
            *endpoint,
        ),
        request::is_plainly_admissible(
            *head,
            request_path@,
            tls_sni@,
            rewriter.bases(),
            rewriter.suffix(),
        ) ==> !(r is Refuse),
        final(metrics)@ == if r is Refuse {
            old(metrics)@
        } else {
            old(metrics)@.with_sni_rewrite()
        },
{
    let decision = request::decide_request(head, request_path, tls_sni, rewriter);
    continue_request(head, decision, request_path, tls_sni, endpoint, metrics)
}

/// What is said of the body of a POST request, given what was read of it.
pub open spec fn body_fault(body: Result<Seq<u8>, Seq<char>>) -> Option<Seq<char>> {
    match body {
        Err(reason) => Some(
            "DoH request body exceeds the DNS message limit or could not be read: "@ + reason,
        ),
        Ok(bytes) => request::message_fault(bytes.len(), "DoH POST body"@),
    }
}

impl DohPlan {
    /// Takes the body of a POST request, or why it could not be read within the size
    /// of a DNS message.
    pub fn receive_body(self, body: Result<Vec<u8>, String>) -> (r: Result<
        DohForward,
        DohErrorResponse,
    >)
        ensures
            match body_fault(octets::read_view(body)) {
                Some(message) => r matches Err(response) && response.answers(message),
                None => r matches Ok(forward) && forward.plan == self && Ok::<
                    Vec<u8>,
                    String,
                >(forward.body) == body,
            },
    {
        match body {
            Err(reason) => Err(
                doh_error_response(
                    text::join(
                        "DoH request body exceeds the DNS message limit or could not be read: ",
                        reason.as_str(),
                    ),
                ),
            ),
            Ok(bytes) => match request::validate_dns_message(bytes.as_slice(), "DoH POST body") {
                Err(message) => Err(doh_error_response(message)),
                Ok(()) => Ok(DohForward { plan: self, body: bytes }),
            },
        }
    }
}

/// What is said of a request that did not get through to the upstream.
pub open spec fn forward_fault(upstream_uri: Seq<char>) -> Seq<char> {
    "Failed to forward HTTP request to upstream: "@ + upstream_uri
}

impl DohForward {
    /// Books what came back from the upstream: a status and the size of the body, or
    /// a failure. Without an answer of its own, the proxy relays the upstream's.
    pub fn settle(
        &self,
        outcome: &Result<(u16, u64), String>,
        elapsed_micros: u128,
        metrics: &mut Metrics,
    ) -> (r: Option<DohErrorResponse>)
        ensures
            match *outcome {
                Ok((status, bytes_sent)) => {
                    let counted = old(metrics)@.with_request(
                        request::is_success_status(status),
                        self.body@.len() as u64,
                        bytes_sent,
                        elapsed_micros,
                    );
                    &&& r is None
                    &&& final(metrics)@ == if request::is_success_status(status) {
                        counted
                    } else {
                        counted.with_upstream_error()
                    }
                },
                Err(_) => {
                    &&& r matches Some(response) && response.answers(
                        forward_fault(self.plan.upstream_uri@),
                    )
                    &&& final(metrics)@ == old(metrics)@.with_request(
                        false,
                        self.body@.len() as u64,
                        0,
                        elapsed_micros,
                    ).with_upstream_error()
                },
            },
    {
        let bytes_received: u64 = self.body.len() as u64;
        match outcome {
            Ok((status, bytes_sent)) => {
                let success = request::is_success(*status);
                metrics.record_request(success, bytes_received, *bytes_sent, elapsed_micros);
                if !success {
                    metrics.record_upstream_error();
                }
                None
            },
            Err(_) => {
                metrics.record_request(false, bytes_received, 0, elapsed_micros);
                metrics.record_upstream_error();
                Some(
                    doh_error_response(
                        text::join(
                            "Failed to forward HTTP request to upstream: ",
                            self.plan.upstream_uri.as_str(),
                        ),
                    ),
                )
            },
        }
    }
}

/// A request that was admitted goes on with the target of its rewrite and the upstream URI
/// for its own query: a POST request has its body read first, any other goes on without one.
/// A request that was refused is answered with the status and the words for its refusal.
pub proof fn admitted_requests_go_on(
    start: DohStart,
    decision: Result<RewriteView, RefusalView>,
    head: RequestHead,
    request_path: Seq<char>,
    tls_sni: Seq<char>,
    endpoint: HttpUpstreamConfig,
)
    requires
        follows(start, decision, head, request_path, tls_sni, endpoint),
    ensures
        ({
            let plan = if let DohStart::ReadBody(plan) = start {
                plan
            } else {
                start->Forward_0.plan
            };
            let query = match head.query {
                Some(query) => Some(query@),
                None => None,
            };
            &&& decision is Ok && head.method@ == "POST"@ ==> start is ReadBody
            &&& decision is Ok && head.method@ != "POST"@ ==> (start matches DohStart::Forward(
                forward,
            ) && forward.body@.len() == 0)
            &&& decision matches Ok(target) ==> {
                &&& plan.rewrite.original@ == target.original
                &&& plan.rewrite.prefix@ == target.prefix
                &&& plan.rewrite.target_hostname@ == target.target_hostname
                &&& plan.upstream_uri@ == request::upstream_uri_text(
                    target.target_hostname,
                    endpoint.port,
                    endpoint.path@,
                    query,
                )
            }
            &&& decision matches Err(refusal) ==> (start matches DohStart::Refuse(response) && {
                let message = refusal_text(refusal, request_path, tls_sni);
                &&& response.status == status_of(message)
                &&& response.body@ == message
                &&& response.content_type@ == "text/plain; charset=utf-8"@
            })
        }),
{
}

/// A body of 12 to 65535 octets is in order; any other, and one that could not be read, is
/// not.
pub proof fn bodies_of_a_message_are_taken(body: Seq<u8>, reason: Seq<char>)
    ensures
        body_fault(Ok(body)) is None <==> 12 <= body.len() <= 65535,
        body_fault(Err(reason)) is Some,
{
}

/// Which status a message is answered with, for every message: each of 404, 405, 415, 413 and
/// 502 has its words, the first of them that a message holds decides, and 400 is left.
pub proof fn each_status_has_its_words(message: Seq<char>)
    ensures
        ({
            let path = text::has_text(message, "request path"@);
            let method = text::has_text(message, "only supports GET and POST"@);
            let media = text::has_text(message, "Content-Type"@);
            let size = text::has_text(message, "exceeds the DNS message limit"@) || text::has_text(
                message,
                "65535 bytes"@,
            );
            let gateway = text::has_text(message, "Failed to forward HTTP request to upstream"@)
                || text::has_text(message, "upstream response"@);
            &&& status_of(message) == 404 <==> path
            &&& status_of(message) == 405 <==> !path && method
            &&& status_of(message) == 415 <==> !path && !method && media
            &&& status_of(message) == 413 <==> !path && !method && !media && size
            &&& status_of(message) == 502 <==> !path && !method && !media && !size && gateway
            &&& status_of(message) == 400 <==> !path && !method && !media && !size && !gateway
        }),
{
}

/// What a client is told quotes what its request is measured by: the path that is served, or
/// the host that it named and that of the handshake.
pub proof fn refusals_quote_what_they_are_about(
    request_path: Seq<char>,
    tls_sni: Seq<char>,
    host: Seq<char>,
)
    ensures
        text::ends_with(refusal_text(RefusalView::Path, request_path, tls_sni), request_path),
        text::ends_with(
            refusal_text(RefusalView::HostMismatch { host }, request_path, tls_sni),
            host + ") does not match TLS SNI ("@ + tls_sni + ")"@,
        ),
        text::ends_with(forward_fault(host), host),
{
    text::ends_and_beginnings("DoH request path must be "@, request_path, ' ');
    let end = host + ") does not match TLS SNI ("@ + tls_sni + ")"@;
    let told = refusal_text(RefusalView::HostMismatch { host }, request_path, tls_sni);
    assert(told == "DoH Host ("@ + end);
    text::ends_and_beginnings("DoH Host ("@, end, ' ');
    text::ends_and_beginnings("Failed to forward HTTP request to upstream: "@, host, ' ');
}

} // verus!
