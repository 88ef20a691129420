//! One request to an upstream over HTTP/3.
//!
//! DoH3 requests never fall back to HTTPS over TCP: HTTP/3 is selected and framed
//! through the ALPN of QUIC.
use crate::error;
use crate::error::{DnsProxyError, ErrorView};
use crate::octets;
use crate::proxy::request;
use crate::proxy::request::MAX_DNS_MESSAGE_SIZE;
use crate::text;
use crate::upstream::headers;
use crate::upstream::headers::HeaderField;
use vstd::prelude::*;

verus! {

/// The head of a request to an upstream.
#[derive(Debug, Clone)]
pub struct UpstreamHead {
    pub method: String,
    pub uri: String,
    pub headers: Vec<HeaderField>,
}

/// How far an exchange has come.
#[derive(Debug, Clone)]
pub enum Http3Stage {
    /// A session to the upstream is being opened.
    Connect,
    /// The head of the request is being sent.
    SendHead,
    /// The body of the request is being sent.
    SendBody,
    /// The end of the request is being sent.
    Finish,
    /// The head of the response is awaited.
    ReadHead,
    /// The body of the response is being read.
    ReadBody {
        status: u16,
        headers: Vec<HeaderField>,
        content_type: Option<String>,
        body: Vec<u8>,
    },
    /// The exchange is over.
    Over,
}

/// What came of the last step.
#[derive(Debug, Clone)]
pub enum Http3Event {
    /// The time for the step ran out.
    TimedOut,
    /// There is no session.
    Refused(DnsProxyError),
    /// The step failed, with the transport's words.
    Failed(String),
    /// The step is done.
    Done,
    /// The head of the response came, with its Content-Type where that is there and
    /// readable.
    Head { status: u16, headers: Vec<HeaderField>, content_type: Option<String> },
    /// A part of the body came.
    Chunk(Vec<u8>),
    /// The body is at its end.
    End,
}

/// What is to be done next.
#[derive(Debug, Clone)]
pub enum Http3Action {
    SendHead(UpstreamHead),
    /// Send the body of the request.
    SendBody(Vec<u8>),
    Finish,
    ReadHead,
    ReadBody,
    /// Hand the response to the client.
    Return { status: u16, headers: Vec<HeaderField>, body: Vec<u8> },
    /// Give up. The session is dropped from its pool where it may be broken.
    Fail { error: DnsProxyError, invalidate: bool },
}

/// An exchange with an upstream.
#[derive(Debug, Clone)]
pub struct Http3Forward {
    pub upstream_uri: String,
    pub target_hostname: String,
    pub port: u16,
    pub method: String,
    pub headers: Vec<HeaderField>,
    pub body: Vec<u8>,
    pub stage: Http3Stage,
}

/// What is wrong with a complete response, if anything is.
pub open spec fn response_fault(
    status: u16,
    content_type: Option<Seq<char>>,
    n: nat,
) -> Option<Seq<char>> {
    if !request::is_success_status(status) {
        None
    } else if !request::is_dns_content(content_type) {
        Some("HTTP/3 upstream returned a successful non-DNS response"@)
    } else {
        request::message_fault(n, "HTTP/3 upstream DNS response"@)
    }
}

/// What is wrong with a complete response, if anything is.
pub fn check_response(status: u16, content_type: Option<&str>, body: &[u8]) -> (r: Result<
    (),
    String,
>)
    ensures
        error::reports(r, response_fault(status, request::option_str(content_type), body@.len())),
{
    if !request::is_success(status) {
        return Ok(());
    }
    if !request::is_dns_message_content_type(content_type) {
        return Err("HTTP/3 upstream returned a successful non-DNS response".to_owned());
    }
    request::validate_dns_message(body, "HTTP/3 upstream DNS response")
}

impl Http3Forward {
    /// An exchange that has not begun.
    pub fn new(
        upstream_uri: String,
        target_hostname: String,
        port: u16,
        method: String,
        headers: Vec<HeaderField>,
        body: Vec<u8>,
    ) -> (r: Self)
        ensures
            r == (Http3Forward {
                upstream_uri,
                target_hostname,
                port,
                method,
                headers,
                body,
                stage: Http3Stage::Connect,
            }),
    {
        Http3Forward {
            upstream_uri,
            target_hostname,
            port,
            method,
            headers,
            body,
            stage: Http3Stage::Connect,
        }
    }

    /// Whether no more than a DNS message has been read.
    pub open spec fn is_bounded(&self) -> bool {
        self.stage matches Http3Stage::ReadBody { status, headers, content_type, body }
            ==> body@.len() <= MAX_DNS_MESSAGE_SIZE
    }

    /// Whether this is the head of the request of an exchange.
    pub open spec fn has_head(&self, head: UpstreamHead) -> bool {
        &&& head.method@ == self.method@
        &&& head.uri@ == self.upstream_uri@
        &&& headers::fields_view(head.headers@) == headers::upstream_fields(
            headers::fields_view(self.headers@),
            self.target_hostname@,
        )
    }

    /// What keeps the request from being built, given what is wrong with its URI.
    pub open spec fn head_fault(&self, uri_fault: Option<Seq<char>>) -> Option<ErrorView> {
        match uri_fault {
            Some(fault) => Some(ErrorView::Protocol("Invalid HTTP/3 request: "@ + fault)),
            None => if headers::is_header_text(self.target_hostname@) {
                None
            } else {
                Some(
                    ErrorView::Protocol(
                        "Invalid upstream Host header: "@ + headers::header_text_fault(),
                    ),
                )
            },
        }
    }

    /// Whether an event can come at this stage.
    pub open spec fn awaits(&self, event: Http3Event) -> bool {
        match self.stage {
            Http3Stage::Connect => event is TimedOut || event is Refused || event is Done,
            Http3Stage::SendHead | Http3Stage::SendBody | Http3Stage::Finish => event is TimedOut
                || event is Failed || event is Done,
            Http3Stage::ReadHead => event is TimedOut || event is Failed || event is Head,
            Http3Stage::ReadBody { .. } => event is TimedOut || event is Failed || event is Chunk
                || event is End,
            Http3Stage::Over => false,
        }
    }

    /// The error in which an event ends the exchange, if it does.
    pub open spec fn fault(&self, event: Http3Event) -> Option<ErrorView> {
        let uri = self.upstream_uri@;
        match event {
            Http3Event::TimedOut => Some(
                ErrorView::Timeout {
                    upstream: if self.stage is Connect {
                        text::with_port(self.target_hostname@, self.port)
                    } else {
                        uri
                    },
                },
            ),
            Http3Event::Refused(error) => Some(error@),
            Http3Event::Failed(reason) => Some(
                if self.stage is SendHead {
                    ErrorView::RequestFailed { upstream: uri, reason: reason@ }
                } else {
                    ErrorView::Protocol(reason@)
                },
            ),
            Http3Event::Done => if self.stage is Connect {
                self.head_fault(headers::uri_fault(uri))
            } else {
                None
            },
            Http3Event::Head { .. } => None,
            Http3Event::Chunk(bytes) => match self.stage {
                Http3Stage::ReadBody { body, .. } if body@.len() + bytes@.len()
                    > MAX_DNS_MESSAGE_SIZE => Some(
                    ErrorView::RequestFailed {
                        upstream: uri,
                        reason: "HTTP/3 upstream response exceeds DNS message limit"@,
                    },
                ),
                _ => None,
            },
            Http3Event::End => match self.stage {
                Http3Stage::ReadBody { status, content_type, body, .. } => match response_fault(
                    status,
                    request::option_text(content_type),
                    body@.len(),
                ) {
                    Some(reason) => Some(ErrorView::RequestFailed { upstream: uri, reason }),
                    None => None,
                },
                _ => None,
            },
        }
    }

    /// What is to be done after an event that does not end the exchange in an error,
    /// at the stage that is reached.
    pub open spec fn continues(
        &self,
        event: Http3Event,
        next: Http3Stage,
        action: Http3Action,
    ) -> bool {
        match (self.stage, event) {
            (Http3Stage::Connect, _) => {
                &&& next is SendHead
                &&& action matches Http3Action::SendHead(head) && self.has_head(head)
            },
            (Http3Stage::SendHead, _) => if self.body@.len() > 0 {
                next is SendBody && (action matches Http3Action::SendBody(sent) && sent@
                    == self.body@)
            } else {
                next is Finish && action is Finish
            },
            (Http3Stage::SendBody, _) => next is Finish && action is Finish,
            (Http3Stage::Finish, _) => next is ReadHead && action is ReadHead,
            (Http3Stage::ReadHead, Http3Event::Head { status, headers, content_type }) => {
                &&& action is ReadBody
                &&& next matches Http3Stage::ReadBody {
                    status: s,
                    headers: h,
                    content_type: c,
                    body,
                } && s == status && h == headers && c == content_type && body@ == Seq::<
                    u8,
                >::empty()
            },
            (
                Http3Stage::ReadBody { status, headers, content_type, body },
                Http3Event::Chunk(bytes),
            ) => {
                &&& action is ReadBody
                &&& next matches Http3Stage::ReadBody {
                    status: s,
                    headers: h,
                    content_type: c,
                    body: b,
                } && s == status && h == headers && c == content_type && b@ == body@ + bytes@
            },
            (Http3Stage::ReadBody { status, headers, content_type, body }, _) => {
                &&& next is Over
                &&& action == (Http3Action::Return { status, headers, body })
            },
            _ => true,
        }
    }

    /// Whether another exchange is the same one at some stage.
    pub open spec fn is_same_exchange(&self, other: Http3Forward) -> bool {
        *self == (Http3Forward { stage: self.stage, ..other })
    }

    /// The head of the request, given what is wrong with its URI.
    pub fn build_head(&self, uri_fault: Option<String>) -> (r: Result<UpstreamHead, DnsProxyError>)
        ensures
            match self.head_fault(request::option_text(uri_fault)) {
                Some(fault) => r matches Err(error) && error@ == fault,
                None => r matches Ok(head) && self.has_head(head),
            },
    {
        match uri_fault {
            Some(fault) => Err(
                DnsProxyError::Protocol(text::join("Invalid HTTP/3 request: ", fault.as_str())),
            ),
            None => match headers::upstream_headers(&self.headers, self.target_hostname.as_str()) {
                Ok(fields) => Ok(
                    UpstreamHead {
                        method: self.method.as_str().to_owned(),
                        uri: self.upstream_uri.as_str().to_owned(),
                        headers: fields,
                    },
                ),
                Err(fault) => Err(
                    DnsProxyError::Protocol(
                        text::join("Invalid upstream Host header: ", fault.as_str()),
                    ),
                ),
            },
        }
    }

    /// The exchange at another stage.
    fn at(self, stage: Http3Stage) -> (r: Self)
        ensures
            r.is_same_exchange(self),
            r.stage == stage,
    {
        Http3Forward {
            upstream_uri: self.upstream_uri,
            target_hostname: self.target_hostname,
            port: self.port,
            method: self.method,
            headers: self.headers,
            body: self.body,
            stage,
        }
    }

    /// The exchange, given up.
    fn give_up(self, error: DnsProxyError, invalidate: bool) -> (r: (Self, Http3Action))
        ensures
            r.0.is_same_exchange(self),
            r.0.stage is Over,
            r.1 == (Http3Action::Fail { error, invalidate }),
    {
        (self.at(Http3Stage::Over), Http3Action::Fail { error, invalidate })
    }

    /// Takes what came of the last step, and tells the next one. Whatever goes wrong
    /// once there is a session makes the pool drop it.
    pub fn step(self, event: Http3Event) -> (r: (Self, Http3Action))
        requires
            self.awaits(event),
        ensures
            r.0.is_same_exchange(self),
            match self.fault(event) {
                Some(fault) => {
                    &&& r.0.stage is Over
                    &&& r.1 matches Http3Action::Fail { error, invalidate } && error@ == fault
                        && invalidate == !(self.stage is Connect && !(event is Done))
                },
                None => self.continues(event, r.0.stage, r.1),
            },
            self.is_bounded() ==> r.0.is_bounded(),
            self.is_bounded() ==> (r.1 matches Http3Action::Return { status, headers, body }
                ==> body@.len() <= MAX_DNS_MESSAGE_SIZE),
    {
        match event {
            Http3Event::TimedOut => match &self.stage {
                Http3Stage::Connect => {
                    let error = DnsProxyError::Timeout {
                        upstream: text::join_port(self.target_hostname.as_str(), self.port),
                    };
                    self.give_up(error, false)
                },
                _ => {
                    let error = error::timeout(self.upstream_uri.as_str());
                    self.give_up(error, true)
                },
            },
            Http3Event::Refused(error) => self.give_up(error, false),
            Http3Event::Failed(reason) => match &self.stage {
                Http3Stage::SendHead => {
                    let error = error::request_failed(self.upstream_uri.as_str(), reason.as_str());
                    self.give_up(error, true)
                },
                _ => self.give_up(DnsProxyError::Protocol(reason), true),
            },
            Http3Event::Done => match &self.stage {
                Http3Stage::Connect => {
                    let uri_fault = headers::judge_uri(self.upstream_uri.as_str());
                    match self.build_head(uri_fault) {
                        Ok(head) => (self.at(Http3Stage::SendHead), Http3Action::SendHead(head)),
                        Err(error) => self.give_up(error, true),
                    }
                },
                Http3Stage::SendHead => if self.body.is_empty() {
                    (self.at(Http3Stage::Finish), Http3Action::Finish)
                } else {
                    let sent = octets::copy_of(self.body.as_slice());
                    (self.at(Http3Stage::SendBody), Http3Action::SendBody(sent))
                },
                Http3Stage::SendBody => (self.at(Http3Stage::Finish), Http3Action::Finish),
                _ => (self.at(Http3Stage::ReadHead), Http3Action::ReadHead),
            },
            Http3Event::Head { status, headers, content_type } => (
                self.at(Http3Stage::ReadBody { status, headers, content_type, body: Vec::new() }),
                Http3Action::ReadBody,
            ),
            Http3Event::Chunk(bytes) => self.receive_chunk(bytes),
            Http3Event::End => self.complete(),
        }
    }

    /// Takes a part of the body of the response.
    fn receive_chunk(self, bytes: Vec<u8>) -> (r: (Self, Http3Action))
        requires
            self.stage is ReadBody,
        ensures
            r.0.is_same_exchange(self),
            match self.fault(Http3Event::Chunk(bytes)) {
                Some(fault) => {
                    &&& r.0.stage is Over
                    &&& r.1 matches Http3Action::Fail { error, invalidate } && error@ == fault
                        && invalidate
                },
                None => self.continues(Http3Event::Chunk(bytes), r.0.stage, r.1),
            },
    {
        let Http3Forward { upstream_uri, target_hostname, port, method, headers, body, stage } =
            self;
        match stage {
            Http3Stage::ReadBody { status, headers: received, content_type, body: mut read } => {
                if read.len().saturating_add(bytes.len()) > MAX_DNS_MESSAGE_SIZE {
                    let error = error::request_failed(
                        upstream_uri.as_str(),
                        "HTTP/3 upstream response exceeds DNS message limit",
                    );
                    return (
                        Http3Forward {
                            upstream_uri,
                            target_hostname,
                            port,
                            method,
                            headers,
                            body,
                            stage: Http3Stage::Over,
                        },
                        Http3Action::Fail { error, invalidate: true },
                    );
                }
                octets::append(&mut read, bytes.as_slice());
                (
                    Http3Forward {
                        upstream_uri,
                        target_hostname,
                        port,
                        method,
                        headers,
                        body,
                        stage: Http3Stage::ReadBody {
                            status,
                            headers: received,
                            content_type,
                            body: read,
                        },
                    },
                    Http3Action::ReadBody,
                )
            },
            stage => (
                Http3Forward { upstream_uri, target_hostname, port, method, headers, body, stage },
                Http3Action::ReadBody,
            ),
        }
    }

    /// Takes the end of the body of the response.
    fn complete(self) -> (r: (Self, Http3Action))
        requires
            self.stage is ReadBody,
        ensures
            r.0.is_same_exchange(self),
            match self.fault(Http3Event::End) {
                Some(fault) => {
                    &&& r.0.stage is Over
                    &&& r.1 matches Http3Action::Fail { error, invalidate } && error@ == fault
                        && invalidate
                },
                None => self.continues(Http3Event::End, r.0.stage, r.1),
            },
    {
        let Http3Forward { upstream_uri, target_hostname, port, method, headers, body, stage } =
            self;
        let action = match stage {
            Http3Stage::ReadBody { status, headers: received, content_type, body: read } => {
                let declared = match &content_type {
                    Some(value) => Some(value.as_str()),
                    None => None,
                };
                match check_response(status, declared, read.as_slice()) {
                    Ok(()) => Http3Action::Return { status, headers: received, body: read },
                    Err(reason) => Http3Action::Fail {
                        error: error::request_failed(upstream_uri.as_str(), reason.as_str()),
                        invalidate: true,
                    },
                }
            },
            _ => Http3Action::ReadBody,
        };
        (
            Http3Forward {
                upstream_uri,
                target_hostname,
                port,
                method,
                headers,
                body,
                stage: Http3Stage::Over,
            },
            action,
        )
    }
}

/// A response that means success is handed to the client only where it carries one DNS
/// message and says so.
pub proof fn successful_responses_carry_a_message(
    exchange: Http3Forward,
    event: Http3Event,
    next: Http3Stage,
    action: Http3Action,
)
    requires
        exchange.awaits(event),
        exchange.fault(event) is None,
        exchange.continues(event, next, action),
        action is Return,
    ensures
        exchange.stage matches Http3Stage::ReadBody { status, headers, content_type, body } && {
            &&& action == (Http3Action::Return { status, headers, body })
            &&& request::is_success_status(status) ==> request::is_dns_content(
                request::option_text(content_type),
            ) && request::is_message_length(body@.len())
        },
{
}

/// The head of a request has the method and the URI of the exchange, and the headers that
/// may go to its target.
pub proof fn heads_are_those_of_the_exchange(exchange: Http3Forward, head: UpstreamHead)
    requires
        exchange.has_head(head),
    ensures
        head.method@ == exchange.method@,
        head.uri@ == exchange.upstream_uri@,
        headers::fields_view(head.headers@) == headers::upstream_fields(
            headers::fields_view(exchange.headers@),
            exchange.target_hostname@,
        ),
{
}

/// A request goes out whole, step by step: its head once there is a session and its URI and
/// host are in order, then its body where it has one, then its end, and then the response is
/// awaited.
pub proof fn requests_go_out_whole(
    exchange: Http3Forward,
    next: Http3Stage,
    action: Http3Action,
)
    requires
        exchange.continues(Http3Event::Done, next, action),
    ensures
        exchange.stage is Connect && headers::uri_fault(exchange.upstream_uri@) is None
            && headers::is_header_text(exchange.target_hostname@) ==> exchange.fault(
            Http3Event::Done,
        ) is None && next is SendHead && (action matches Http3Action::SendHead(head)
            && head.method@ == exchange.method@ && head.uri@ == exchange.upstream_uri@),
        !(exchange.stage is Connect) ==> exchange.fault(Http3Event::Done) is None,
        exchange.stage is SendHead && exchange.body@.len() > 0 ==> next is SendBody && (action
            matches Http3Action::SendBody(sent) && sent@ == exchange.body@),
        exchange.stage is SendHead && exchange.body@.len() == 0 ==> next is Finish
            && action is Finish,
        exchange.stage is SendBody ==> next is Finish && action is Finish,
        exchange.stage is Finish ==> next is ReadHead && action is ReadHead,
{
}

/// A response comes back whole: its head is kept, parts of its body are put one behind the
/// other up to 65535 octets in all, and at its end status, headers and body are handed on as
/// they came, unless it means success and is no DNS message of 12 to 65535 octets.
pub proof fn responses_come_back_whole(
    exchange: Http3Forward,
    status: u16,
    fields: Vec<HeaderField>,
    content_type: Option<String>,
    read: Vec<u8>,
    part: Vec<u8>,
    next: Http3Stage,
    action: Http3Action,
)
    ensures
        exchange.stage is ReadHead ==> {
            let event = Http3Event::Head { status, headers: fields, content_type };
            &&& exchange.fault(event) is None
            &&& exchange.continues(event, next, action) ==> action is ReadBody && (next matches
                Http3Stage::ReadBody { status: s, headers: h, content_type: c, body: b } && s
                == status && h == fields && c == content_type && b@.len() == 0)
        },
        exchange.stage == (Http3Stage::ReadBody {
            status,
            headers: fields,
            content_type,
            body: read,
        }) ==> {
            let more = Http3Event::Chunk(part);
            let end = Http3Event::End;
            let is_message = (content_type matches Some(value) && request::names_dns_message(
                value@,
            )) && 12 <= read@.len() <= 65535;
            &&& exchange.fault(more) is None <==> read@.len() + part@.len() <= 65535
            &&& exchange.continues(more, next, action) ==> action is ReadBody && (next matches
                Http3Stage::ReadBody { status: s, headers: h, content_type: c, body: b } && s
                == status && h == fields && c == content_type && b@ == read@ + part@)
            &&& exchange.fault(end) is None <==> (200 <= status <= 299 ==> is_message)
            &&& exchange.continues(end, next, action) ==> next is Over && action == (
            Http3Action::Return { status, headers: fields, body: read })
        },
{
}

/// Every step that fails or takes too long, and a session that is refused, ends an
/// exchange.
pub proof fn exchanges_end_on_failures(
    exchange: Http3Forward,
    reason: String,
    error: DnsProxyError,
)
    ensures
        exchange.fault(Http3Event::TimedOut) is Some,
        exchange.fault(Http3Event::Failed(reason)) is Some,
        exchange.fault(Http3Event::Refused(error)) == Some(error@),
{
}

/// An exchange keeps its request through all stages.
pub proof fn exchanges_keep_their_requests(exchange: Http3Forward, other: Http3Forward)
    requires
        exchange.is_same_exchange(other),
    ensures
        exchange.upstream_uri == other.upstream_uri,
        exchange.target_hostname == other.target_hostname,
        exchange.port == other.port,
        exchange.method == other.method,
        exchange.headers == other.headers,
        exchange.body == other.body,
{
}

/// Whatever can come of a step is taken, and a request whose URI is none, or whose target is
/// no Host value, is not sent.
pub proof fn exchanges_take_whatever_can_come(
    exchange: Http3Forward,
    reason: String,
    error: DnsProxyError,
    part: Vec<u8>,
    head: Http3Event,
)
    requires
        head is Head,
    ensures
        exchange.stage is Connect ==> exchange.awaits(Http3Event::Done) && exchange.awaits(
            Http3Event::Refused(error),
        ) && exchange.awaits(Http3Event::TimedOut),
        exchange.stage is SendHead || exchange.stage is SendBody || exchange.stage is Finish
            ==> exchange.awaits(Http3Event::Done) && exchange.awaits(Http3Event::Failed(reason))
            && exchange.awaits(Http3Event::TimedOut),
        exchange.stage is ReadHead ==> exchange.awaits(head) && exchange.awaits(
            Http3Event::Failed(reason),
        ) && exchange.awaits(Http3Event::TimedOut),
        exchange.stage is ReadBody ==> exchange.awaits(Http3Event::Chunk(part)) && exchange.awaits(
            Http3Event::End,
        ) && exchange.awaits(Http3Event::Failed(reason)) && exchange.awaits(Http3Event::TimedOut),
        exchange.stage is Connect && (headers::uri_fault(exchange.upstream_uri@) is Some
            || !headers::is_header_text(exchange.target_hostname@)) ==> exchange.fault(
            Http3Event::Done,
        ) is Some,
        exchange.is_bounded() && exchange.stage is ReadBody
            ==> exchange.stage->ReadBody_body@.len() <= 65535,
{
}

/// The kind of an error tells what went wrong: a step that took too long is a timeout, of the
/// host and port while a session is opened and of the URI afterwards; a head that could not
/// be sent and a response that is not relayed are failed requests to the URI; and any other
/// step that failed is a protocol error with the transport's words.
pub proof fn faults_are_of_their_kind(
    exchange: Http3Forward,
    reason: String,
    part: Vec<u8>,
)
    ensures
        exchange.stage is Connect ==> exchange.fault(Http3Event::TimedOut) == Some(
            ErrorView::Timeout {
                upstream: text::with_port(exchange.target_hostname@, exchange.port),
            },
        ),
        !(exchange.stage is Connect) ==> exchange.fault(Http3Event::TimedOut) == Some(
            ErrorView::Timeout { upstream: exchange.upstream_uri@ },
        ),
        exchange.stage is SendHead ==> exchange.fault(Http3Event::Failed(reason)) == Some(
            ErrorView::RequestFailed { upstream: exchange.upstream_uri@, reason: reason@ },
        ),
        !(exchange.stage is SendHead) ==> exchange.fault(Http3Event::Failed(reason)) == Some(
            ErrorView::Protocol(reason@),
        ),
        exchange.fault(Http3Event::Chunk(part)) matches Some(fault) ==> (fault matches
            ErrorView::RequestFailed { upstream, reason: told } && upstream
            == exchange.upstream_uri@),
        exchange.fault(Http3Event::End) matches Some(fault) ==> (fault matches
            ErrorView::RequestFailed { upstream, reason: told } && upstream
            == exchange.upstream_uri@),
        exchange.fault(Http3Event::Done) matches Some(fault) ==> fault is Protocol,
{
}

} // verus!
