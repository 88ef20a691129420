//! One request to an upstream over HTTP/1 or HTTP/2.
use crate::error::DnsProxyResult;
use crate::octets;
use crate::proxy::request;
use crate::text;
use crate::tls_utils::roots;
use crate::upstream::headers;
use crate::upstream::headers::HeaderField;
use crate::upstream::pool::ConnectionPool;
use std::sync::Arc;
use vstd::prelude::*;

verus! {

/// An empty pool for so many clients.
pub fn create_connection_pool_with_limit_and_root_store(
    max_clients: usize,
    root_store: Arc<rustls::RootCertStore>,
) -> (r: ConnectionPool)
    ensures
        r.is_fresh(max_clients),
        r.trust() == root_store,
{
    ConnectionPool::with_max_clients_and_root_store(max_clients, root_store)
}

/// An empty pool for so many clients that trusts the public authorities and those of the
/// platform, whose certificates are `native`.
pub fn create_connection_pool_with_limit(max_clients: usize, native: &Vec<Vec<u8>>) -> (r:
    DnsProxyResult<ConnectionPool>)
    ensures
        match r {
            Ok(pool) => pool.is_fresh(max_clients) && roots::is_loaded(
                Ok(pool.trust()),
                native@,
                None,
            ),
            Err(error) => roots::is_loaded(Err(error), native@, None),
        },
{
    ConnectionPool::with_max_clients(max_clients, native)
}

/// A request to an upstream.
#[derive(Debug, Clone)]
pub struct UpstreamRequest {
    pub method: String,
    pub uri: String,
    pub headers: Vec<HeaderField>,
    pub body: Vec<u8>,
}

/// What is said of a request that cannot be built.
pub open spec fn build_fault(
    method: Seq<char>,
    upstream_uri: Seq<char>,
    target_hostname: Seq<char>,
) -> Seq<char> {
    "Failed to build HTTP request: "@ + method + " "@ + upstream_uri + " (target: "@
        + target_hostname + ")"@
}

/// Builds a request to an upstream, given what is wrong with its URI.
pub fn build_request(
    method: &str,
    upstream_uri: &str,
    target_hostname: &str,
    headers: &Vec<HeaderField>,
    body: Vec<u8>,
    uri_fault: Option<String>,
) -> (r: Result<UpstreamRequest, String>)
    ensures
        match r {
            Ok(built) => {
                &&& uri_fault is None
                &&& headers::is_header_text(target_hostname@)
                &&& built.method@ == method@
                &&& built.uri@ == upstream_uri@
                &&& headers::fields_view(built.headers@) == headers::upstream_fields(
                    headers::fields_view(headers@),
                    target_hostname@,
                )
                &&& built.body == body
            },
            Err(fault) => if uri_fault is Some {
                fault@ == build_fault(method@, upstream_uri@, target_hostname@)
            } else {
                !headers::is_header_text(target_hostname@) && fault@
                    == "Invalid target hostname: "@ + target_hostname@
            },
        },
{
    if uri_fault.is_some() {
        let mut fault = text::join3("Failed to build HTTP request: ", method, " ");
        fault.append(upstream_uri);
        fault.append(" (target: ");
        fault.append(target_hostname);
        fault.append(")");
        return Err(fault);
    }
    match headers::upstream_headers(headers, target_hostname) {
        Ok(fields) => Ok(
            UpstreamRequest {
                method: method.to_owned(),
                uri: upstream_uri.to_owned(),
                headers: fields,
                body,
            },
        ),
        Err(_) => Err(text::join("Invalid target hostname: ", target_hostname)),
    }
}

/// Builds a request to an upstream.
pub fn http_request(
    method: &str,
    upstream_uri: &str,
    target_hostname: &str,
    headers: &Vec<HeaderField>,
    body: Vec<u8>,
) -> (r: Result<UpstreamRequest, String>)
    ensures
        match r {
            Ok(built) => {
                &&& headers::uri_fault(upstream_uri@) is None
                &&& headers::is_header_text(target_hostname@)
                &&& built.method@ == method@
                &&& built.uri@ == upstream_uri@
                &&& headers::fields_view(built.headers@) == headers::upstream_fields(
                    headers::fields_view(headers@),
                    target_hostname@,
                )
                &&& built.body == body
            },
            Err(fault) => if headers::uri_fault(upstream_uri@) is Some {
                fault@ == build_fault(method@, upstream_uri@, target_hostname@)
            } else {
                !headers::is_header_text(target_hostname@) && fault@
                    == "Invalid target hostname: "@ + target_hostname@
            },
        },
{
    let fault = headers::judge_uri(upstream_uri);
    build_request(method, upstream_uri, target_hostname, headers, body, fault)
}

/// What came of sending a request to an upstream.
#[derive(Debug)]
pub enum HttpEvent {
    /// The request failed, for the given reason.
    Failed(String),
    /// No response came within the time that is given here as a text.
    TimedOut(String),
    /// A response came, with its Content-Type where that is there and readable, and its
    /// body was read or could not be read.
    Response {
        status: u16,
        headers: Vec<HeaderField>,
        content_type: Option<String>,
        body: Result<Vec<u8>, String>,
    },
}

/// What the client gets.
#[derive(Debug, Clone)]
pub struct HttpReply {
    pub status: u16,
    pub headers: Vec<HeaderField>,
    pub body: Vec<u8>,
    /// The octets of the body.
    pub size: u64,
}

impl HttpReply {
    /// Whether the proxy answers itself with the given status and text.
    pub open spec fn says(&self, status: u16, message: Seq<char>) -> bool {
        &&& self.status == status
        &&& self.headers@.len() == 0
        &&& self.body@ == vstd::utf8::encode_utf8(message)
        &&& self.size == self.body@.len()
    }

    /// Whether the response of an upstream is relayed as it is.
    pub open spec fn relays(&self, status: u16, headers: Vec<HeaderField>, body: Vec<u8>) -> bool {
        &&& self.status == status
        &&& self.headers == headers
        &&& self.body == body
        &&& self.size == body@.len()
    }
}

/// What is wrong with the response of an upstream, if anything is.
pub open spec fn response_fault(
    upstream_uri: Seq<char>,
    status: u16,
    content_type: Option<Seq<char>>,
    n: nat,
) -> Option<Seq<char>> {
    if !request::is_success_status(status) {
        None
    } else if !request::is_dns_content(content_type) {
        Some(
            "HTTP upstream response for "@ + upstream_uri
                + " is successful but not application/dns-message"@,
        )
    } else if !request::is_message_length(n) {
        Some("HTTP upstream response for "@ + upstream_uri + " is malformed"@)
    } else {
        None
    }
}

/// An answer of the proxy itself.
fn own_reply(status: u16, message: String) -> (r: HttpReply)
    ensures
        r.says(status, message@),
{
    let body = octets::copy_of(message.as_str().as_bytes());
    let size: u64 = body.len() as u64;
    HttpReply { status, headers: Vec::new(), body, size }
}

/// What the client gets after a request was sent to an upstream: an answer about an
/// upstream that failed or was too slow, the response, or an error where a successful
/// response carries no DNS message.
pub fn settle_http_request(upstream_uri: &str, event: HttpEvent) -> (r: Result<HttpReply, String>)
    ensures
        match event {
            HttpEvent::Failed(reason) => r matches Ok(reply) && reply.says(
                502,
                "Upstream error: "@ + reason@,
            ),
            HttpEvent::TimedOut(after) => r matches Ok(reply) && reply.says(
                504,
                "Upstream timeout after "@ + after@,
            ),
            HttpEvent::Response { status, headers, content_type, body: Err(reason) } => r == Err::<
                HttpReply,
                String,
            >(reason),
            HttpEvent::Response { status, headers, content_type, body: Ok(bytes) } =>
                match response_fault(
                upstream_uri@,
                status,
                request::option_text(content_type),
                bytes@.len(),
            ) {
                Some(fault) => r matches Err(message) && message@ == fault,
                None => r matches Ok(reply) && reply.relays(status, headers, bytes),
            },
        },
{
    match event {
        HttpEvent::Failed(reason) => Ok(
            own_reply(502, text::join("Upstream error: ", reason.as_str())),
        ),
        HttpEvent::TimedOut(after) => Ok(
            own_reply(504, text::join("Upstream timeout after ", after.as_str())),
        ),
        HttpEvent::Response { status, headers, content_type, body } => match body {
            Err(reason) => Err(reason),
            Ok(bytes) => {
                if request::is_success(status) {
                    let declared = match &content_type {
                        Some(value) => Some(value.as_str()),
                        None => None,
                    };
                    if !request::is_dns_message_content_type(declared) {
                        return Err(
                            text::join3(
                                "HTTP upstream response for ",
                                upstream_uri,
                                " is successful but not application/dns-message",
                            ),
                        );
                    }
                    if request::validate_dns_message(
                        bytes.as_slice(),
                        "HTTP upstream DNS response",
                    ).is_err() {
                        return Err(
                            text::join3("HTTP upstream response for ", upstream_uri, " is malformed"),
                        );
                    }
                }
                let size: u64 = bytes.len() as u64;
                Ok(HttpReply { status, headers, body: bytes, size })
            },
        },
    }
}

/// A response that means success is relayed to the client only where it carries one DNS
/// message and says so; what else the upstream answers is relayed as it is.
pub proof fn successful_responses_carry_a_message(
    upstream_uri: Seq<char>,
    status: u16,
    content_type: Option<Seq<char>>,
    n: nat,
)
    ensures
        response_fault(upstream_uri, status, content_type, n) is None <==> (
        request::is_success_status(status) ==> request::is_dns_content(content_type)
            && request::is_message_length(n)),
{
}

/// A response is relayed with its own status, headers and body, and its size is that of the
/// body; an answer of the proxy has the given status, no headers and the text in UTF-8.
pub proof fn replies_hold_what_they_are_made_of(
    reply: HttpReply,
    status: u16,
    headers: Vec<HeaderField>,
    body: Vec<u8>,
    message: Seq<char>,
)
    ensures
        reply.relays(status, headers, body) <==> reply.status == status && reply.headers == headers
            && reply.body == body && reply.size == body@.len(),
        reply.says(status, message) <==> reply.status == status && reply.headers@.len()
            == 0 && reply.body@ == vstd::utf8::encode_utf8(message) && reply.size
            == reply.body@.len(),
{
}

/// A response with a status below 200 or above 299 is relayed whatever it holds; one from
/// 200 to 299 is relayed exactly where its Content-Type names a DNS message and it has 12 to
/// 65535 octets.
pub proof fn responses_are_relayed_by_status_type_and_size(
    upstream_uri: Seq<char>,
    status: u16,
    content_type: Seq<char>,
    n: nat,
)
    ensures
        status < 200 || status > 299 ==> response_fault(
            upstream_uri,
            status,
            Some(content_type),
            n,
        ) is None && response_fault(upstream_uri, status, None, n) is None,
        200 <= status <= 299 ==> response_fault(upstream_uri, status, None, n) is Some,
        200 <= status <= 299 ==> (response_fault(
            upstream_uri,
            status,
            Some(content_type),
            n,
        ) is None <==> request::names_dns_message(content_type) && 12 <= n <= 65535),
{
}

/// What is said of a request that cannot be built quotes its method, its URI and its target.
pub proof fn unbuilt_requests_are_quoted(
    method: Seq<char>,
    upstream_uri: Seq<char>,
    target_hostname: Seq<char>,
)
    ensures
        text::ends_with(
            build_fault(method, upstream_uri, target_hostname),
            method + " "@ + upstream_uri + " (target: "@ + target_hostname + ")"@,
        ),
{
    let end = method + " "@ + upstream_uri + " (target: "@ + target_hostname + ")"@;
    assert(build_fault(method, upstream_uri, target_hostname) == "Failed to build HTTP request: "@
        + end);
    text::ends_and_beginnings("Failed to build HTTP request: "@, end, ' ');
}

} // verus!
