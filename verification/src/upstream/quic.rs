//! One DNS over QUIC transaction between a client and an upstream.
//!
//! One query maps to one client-initiated bidirectional stream. The query is one framed
//! DNS message followed by the end of the stream; the response may hold several frames
//! (a zone transfer, for example), which are relayed one by one.
use crate::error;
use crate::error::{DnsProxyError, ErrorView};
use crate::metrics;
use crate::octets;
use crate::text;
use vstd::prelude::*;

verus! {

/// The octets that stand before a framed message: its length, the higher octet first.
pub open spec fn frame_prefix(n: nat) -> Seq<u8> {
    seq![(n / 256) as u8, (n % 256) as u8]
}

/// A message in its frame.
pub open spec fn frame(message: Seq<u8>) -> Seq<u8> {
    frame_prefix(message.len()) + message
}

/// The length that two octets announce.
pub open spec fn announced(prefix: Seq<u8>) -> nat {
    (prefix[0] * 256 + prefix[1]) as nat
}

/// Whether a frame can hold this many octets.
pub open spec fn is_frame_length(n: nat) -> bool {
    1 <= n <= 65535
}

/// Whether a message has a DNS header with a zero message ID, as DNS over QUIC asks.
pub open spec fn has_zero_id(message: Seq<u8>) -> bool {
    message.len() >= 12 && message[0] == 0 && message[1] == 0
}

/// A frame is read back as the message that was put into it, whatever follows.
pub proof fn frames_are_read_back(message: Seq<u8>, rest: Seq<u8>)
    requires
        is_frame_length(message.len()),
    ensures
        ({
            let stream = frame(message) + rest;
            let n = announced(stream.take(2));
            &&& n == message.len()
            &&& stream.subrange(2, (2 + n) as int) == message
            &&& stream.skip((2 + n) as int) == rest
        }),
{
    let stream = frame(message) + rest;
    let n = message.len();
    assert(stream.take(2)[0] == (n / 256) as u8);
    assert(stream.take(2)[1] == (n % 256) as u8);
    assert(stream.subrange(2, 2 + n as int) == message);
    assert(stream.skip(2 + n as int) == rest);
}

/// The octets that stand before a framed message.
pub fn write_doq_frame(message: &[u8]) -> (r: Result<Vec<u8>, DnsProxyError>)
    ensures
        match r {
            Ok(prefix) => message@.len() <= 65535 && prefix@ == frame_prefix(message@.len()),
            Err(error) => message@.len() > 65535 && error@ == ErrorView::Protocol(
                "DoQ message exceeds 65535 bytes"@,
            ),
        },
{
    let n: usize = message.len();
    if n > 65535 {
        return Err(DnsProxyError::Protocol("DoQ message exceeds 65535 bytes".to_owned()));
    }
    let mut prefix: Vec<u8> = Vec::new();
    prefix.push((n / 256) as u8);
    prefix.push((n % 256) as u8);
    Ok(prefix)
}

/// The length that two octets announce, which is not zero.
pub fn read_doq_length(prefix: &[u8]) -> (r: Result<usize, DnsProxyError>)
    requires
        prefix@.len() == 2,
    ensures
        match r {
            Ok(n) => n == announced(prefix@) && is_frame_length(n as nat),
            Err(error) => announced(prefix@) == 0 && error@ == ErrorView::Protocol(
                "DoQ DNS frame must not be empty"@,
            ),
        },
{
    let n: usize = prefix[0] as usize * 256 + prefix[1] as usize;
    if n == 0 {
        return Err(DnsProxyError::Protocol("DoQ DNS frame must not be empty".to_owned()));
    }
    Ok(n)
}

/// What is wrong with a query, if anything is.
pub open spec fn query_fault(query: Seq<u8>) -> Option<Seq<char>> {
    if query.len() < 12 {
        Some("DoQ query is shorter than the DNS header"@)
    } else if !has_zero_id(query) {
        Some("DoQ query DNS message ID must be zero"@)
    } else {
        None
    }
}

/// Checks a query.
pub fn check_doq_query(query: &[u8]) -> (r: Result<(), String>)
    ensures
        error::reports(r, query_fault(query@)),
        r is Ok <==> query@.len() >= 12 && query@[0] == 0 && query@[1] == 0,
{
    if query.len() < 12 {
        return Err("DoQ query is shorter than the DNS header".to_owned());
    }
    if query[0] != 0 || query[1] != 0 {
        return Err("DoQ query DNS message ID must be zero".to_owned());
    }
    Ok(())
}

/// Checks a response.
pub fn check_doq_response(response: &[u8]) -> (r: Result<(), String>)
    ensures
        error::reports(
            r,
            if has_zero_id(response@) {
                None
            } else {
                Some("DoQ upstream response has an invalid DNS message ID"@)
            },
        ),
        r is Ok <==> response@.len() >= 12 && response@[0] == 0 && response@[1] == 0,
{
    if response.len() < 12 || response[0] != 0 || response[1] != 0 {
        return Err("DoQ upstream response has an invalid DNS message ID".to_owned());
    }
    Ok(())
}

/// The error for a transaction in which nothing happened for too long.
pub fn doq_idle_timeout(operation: &str) -> (r: DnsProxyError)
    ensures
        r@ == idle_timeout(operation@),
{
    DnsProxyError::Timeout { upstream: text::join3("DoQ transaction (", operation, ")") }
}

/// The error for a transaction in which nothing happened for too long.
pub open spec fn idle_timeout(operation: Seq<char>) -> ErrorView {
    ErrorView::Timeout { upstream: "DoQ transaction ("@ + operation + ")"@ }
}

/// How far a transaction has come.
#[derive(Debug, Clone, Copy, PartialEq, Eq, Structural)]
pub enum DoqStage {
    /// The length of the query is being read.
    QueryLength,
    /// The query is being read.
    Query,
    /// The end of the client's stream is awaited.
    TrailerLength,
    /// What stands behind the query is being read.
    Trailer,
    /// A connection to the upstream is being opened.
    Connect,
    /// A stream to the upstream is being opened.
    OpenStream,
    /// The length of the query is being sent.
    SendLength,
    /// The query is being sent.
    SendQuery,
    /// The end of the query is being sent.
    FinishQuery,
    /// The length of a response is being read.
    ResponseLength,
    /// A response is being read.
    Response,
    /// The length of a response is being sent to the client.
    RelayLength,
    /// A response is being sent to the client.
    Relay,
    /// The end of the responses is being sent to the client.
    FinishResponse,
    /// The transaction is over.
    Over,
}

/// What came of the last step.
#[derive(Debug, Clone)]
pub enum DoqEvent {
    /// The time for the step ran out.
    TimedOut,
    /// The stream was at its end before any octet.
    Closed,
    /// The step failed, with the transport's words.
    Failed(String),
    /// There is no connection.
    Refused(DnsProxyError),
    /// The step is done.
    Done,
    /// The octets that were asked for came.
    Read(Vec<u8>),
}

/// What is to be done next.
#[derive(Debug, Clone)]
pub enum DoqAction {
    /// Read so many octets from the client.
    ReadClient(usize),
    Connect,
    OpenStream,
    WriteUpstream(Vec<u8>),
    FinishUpstream,
    /// Read so many octets from the upstream.
    ReadUpstream(usize),
    WriteClient(Vec<u8>),
    FinishClient,
    /// The transaction is complete; these octets went each way.
    Return { bytes_received: u64, bytes_sent: u64 },
    /// Give up. The connection is dropped from its pool where it may be broken.
    Fail { error: DnsProxyError, invalidate: bool },
}

/// A transaction.
#[derive(Debug, Clone)]
pub struct DoqTransaction {
    pub server_name: String,
    pub upstream_port: u16,
    pub stage: DoqStage,
    /// The query, once it has been read.
    pub query: Vec<u8>,
    /// The response that is being relayed.
    pub response: Vec<u8>,
    /// The octets that are being read.
    pub awaited: usize,
    /// The octets that have been sent to the client.
    pub bytes_sent: u64,
}

/// What an event has a transaction do.
#[verifier::ext_equal]
pub enum DoqReaction {
    Fail(ErrorView),
    ReadClient { stage: DoqStage, n: nat },
    Connect,
    OpenStream,
    WriteUpstream { stage: DoqStage, bytes: Seq<u8> },
    FinishUpstream,
    ReadUpstream { stage: DoqStage, n: nat },
    WriteClient { stage: DoqStage, bytes: Seq<u8> },
    FinishClient,
    Return,
}

/// What a transaction was about when its time ran out.
pub open spec fn operation(stage: DoqStage) -> Seq<char> {
    match stage {
        DoqStage::QueryLength | DoqStage::TrailerLength | DoqStage::ResponseLength =>
            "reading DoQ frame length"@,
        DoqStage::Query | DoqStage::Trailer | DoqStage::Response => "reading DoQ message"@,
        DoqStage::Connect => "opening upstream connection"@,
        DoqStage::OpenStream => "opening upstream stream"@,
        DoqStage::SendLength | DoqStage::RelayLength => "writing DoQ frame length"@,
        _ => "writing DoQ message"@,
    }
}

impl DoqTransaction {
    /// The upstream.
    pub open spec fn authority(&self) -> Seq<char> {
        text::with_port(self.server_name@, self.upstream_port)
    }

    /// Whether the query has been read.
    pub open spec fn has_query(&self) -> bool {
        !(self.stage is QueryLength || self.stage is Query || self.stage is Over)
    }

    /// Whether a response is being relayed.
    pub open spec fn has_response(&self) -> bool {
        self.stage is RelayLength || self.stage is Relay
    }

    /// What holds at every stage: a query or response that is passed on has a DNS header
    /// with a zero message ID and fits in a frame.
    pub open spec fn inv(&self) -> bool {
        &&& self.has_query() ==> has_zero_id(self.query@) && self.query@.len() <= 65535
        &&& self.has_response() ==> has_zero_id(self.response@) && self.response@.len() <= 65535
        &&& (self.stage is Query || self.stage is Trailer || self.stage is Response)
            ==> is_frame_length(self.awaited as nat)
    }

    /// Whether an event can come at this stage.
    pub open spec fn awaits(&self, event: DoqEvent) -> bool {
        match self.stage {
            DoqStage::QueryLength | DoqStage::TrailerLength | DoqStage::ResponseLength => {
                ||| event is TimedOut
                ||| event is Closed
                ||| event is Failed
                ||| event matches DoqEvent::Read(bytes) && bytes@.len() == 2
            },
            DoqStage::Query | DoqStage::Trailer | DoqStage::Response => {
                ||| event is TimedOut
                ||| event is Failed
                ||| event matches DoqEvent::Read(bytes) && bytes@.len() == self.awaited
            },
            DoqStage::Connect => event is TimedOut || event is Refused || event is Done,
            DoqStage::OpenStream
            | DoqStage::SendLength
            | DoqStage::SendQuery
            | DoqStage::RelayLength
            | DoqStage::Relay => event is TimedOut || event is Failed || event is Done,
            DoqStage::FinishQuery | DoqStage::FinishResponse => event is Failed || event is Done,
            DoqStage::Over => false,
        }
    }

    /// The error for a step that failed.
    pub open spec fn failure(&self, reason: Seq<char>) -> ErrorView {
        match self.stage {
            DoqStage::QueryLength | DoqStage::TrailerLength | DoqStage::ResponseLength =>
                ErrorView::Protocol("DoQ stream ended with an incomplete frame: "@ + reason),
            DoqStage::Query | DoqStage::Trailer | DoqStage::Response => ErrorView::Protocol(
                "DoQ stream ended with an incomplete DNS message: "@ + reason,
            ),
            DoqStage::OpenStream => ErrorView::RequestFailed {
                upstream: self.authority(),
                reason: "Failed to open DoQ stream: "@ + reason,
            },
            DoqStage::FinishQuery => ErrorView::RequestFailed {
                upstream: self.authority(),
                reason: "Failed to finish DoQ query: "@ + reason,
            },
            DoqStage::SendLength | DoqStage::RelayLength => ErrorView::Protocol(
                "Failed to write DoQ frame length: "@ + reason,
            ),
            DoqStage::SendQuery | DoqStage::Relay => ErrorView::Protocol(
                "Failed to write DoQ frame body: "@ + reason,
            ),
            _ => ErrorView::Protocol("Failed to finish client stream: "@ + reason),
        }
    }

    /// What octets that were read have a transaction do.
    pub open spec fn reading(&self, bytes: Seq<u8>) -> DoqReaction {
        match self.stage {
            DoqStage::QueryLength | DoqStage::TrailerLength | DoqStage::ResponseLength => {
                let n = announced(bytes);
                if n == 0 {
                    DoqReaction::Fail(ErrorView::Protocol("DoQ DNS frame must not be empty"@))
                } else if self.stage is QueryLength {
                    DoqReaction::ReadClient { stage: DoqStage::Query, n }
                } else if self.stage is TrailerLength {
                    DoqReaction::ReadClient { stage: DoqStage::Trailer, n }
                } else {
                    DoqReaction::ReadUpstream { stage: DoqStage::Response, n }
                }
            },
            DoqStage::Query => match query_fault(bytes) {
                Some(fault) => DoqReaction::Fail(ErrorView::Protocol(fault)),
                None => DoqReaction::ReadClient { stage: DoqStage::TrailerLength, n: 2 },
            },
            DoqStage::Trailer => DoqReaction::Fail(
                ErrorView::Protocol("DoQ stream contains more than one query"@),
            ),
            _ => if has_zero_id(bytes) {
                DoqReaction::WriteClient {
                    stage: DoqStage::RelayLength,
                    bytes: frame_prefix(bytes.len()),
                }
            } else {
                DoqReaction::Fail(
                    ErrorView::Protocol("DoQ upstream response has an invalid DNS message ID"@),
                )
            },
        }
    }

    /// What an event has a transaction do.
    pub open spec fn reaction(&self, event: DoqEvent) -> DoqReaction {
        match event {
            DoqEvent::TimedOut => DoqReaction::Fail(idle_timeout(operation(self.stage))),
            DoqEvent::Failed(reason) => DoqReaction::Fail(self.failure(reason@)),
            DoqEvent::Refused(error) => DoqReaction::Fail(error@),
            DoqEvent::Closed => match self.stage {
                DoqStage::QueryLength => DoqReaction::Fail(
                    ErrorView::Protocol("DoQ stream ended before query frame"@),
                ),
                DoqStage::TrailerLength => DoqReaction::Connect,
                _ => DoqReaction::FinishClient,
            },
            DoqEvent::Read(bytes) => self.reading(bytes@),
            DoqEvent::Done => match self.stage {
                DoqStage::Connect => DoqReaction::OpenStream,
                DoqStage::OpenStream => DoqReaction::WriteUpstream {
                    stage: DoqStage::SendLength,
                    bytes: frame_prefix(self.query@.len()),
                },
                DoqStage::SendLength => DoqReaction::WriteUpstream {
                    stage: DoqStage::SendQuery,
                    bytes: self.query@,
                },
                DoqStage::SendQuery => DoqReaction::FinishUpstream,
                DoqStage::FinishQuery => DoqReaction::ReadUpstream {
                    stage: DoqStage::ResponseLength,
                    n: 2,
                },
                DoqStage::RelayLength => DoqReaction::WriteClient {
                    stage: DoqStage::Relay,
                    bytes: self.response@,
                },
                DoqStage::Relay => DoqReaction::ReadUpstream {
                    stage: DoqStage::ResponseLength,
                    n: 2,
                },
                _ => DoqReaction::Return,
            },
        }
    }

    /// The octets of the framed query.
    pub open spec fn bytes_received(&self) -> u64 {
        (self.query@.len() + 2) as u64
    }

    /// Whether an action does what a reaction asks for, and the transaction has moved on.
    pub open spec fn obeys(&self, reaction: DoqReaction, next: DoqTransaction, action: DoqAction)
        -> bool {
        match reaction {
            DoqReaction::Fail(fault) => {
                &&& action matches DoqAction::Fail { error, invalidate } && error@ == fault
                    && invalidate == (self.stage is OpenStream)
                &&& next.stage is Over
            },
            DoqReaction::ReadClient { stage, n } => action == DoqAction::ReadClient(n as usize)
                && next.stage == stage && next.awaited == n,
            DoqReaction::Connect => action is Connect && next.stage is Connect,
            DoqReaction::OpenStream => action is OpenStream && next.stage is OpenStream,
            DoqReaction::WriteUpstream { stage, bytes } => {
                &&& action matches DoqAction::WriteUpstream(sent) && sent@ == bytes
                &&& next.stage == stage
            },
            DoqReaction::FinishUpstream => action is FinishUpstream && next.stage is FinishQuery,
            DoqReaction::ReadUpstream { stage, n } => action == DoqAction::ReadUpstream(n as usize)
                && next.stage == stage && next.awaited == n,
            DoqReaction::WriteClient { stage, bytes } => {
                &&& action matches DoqAction::WriteClient(sent) && sent@ == bytes
                &&& next.stage == stage
            },
            DoqReaction::FinishClient => action is FinishClient && next.stage is FinishResponse,
            DoqReaction::Return => action == (DoqAction::Return {
                bytes_received: self.bytes_received(),
                bytes_sent: self.bytes_sent,
            }) && next.stage is Over,
        }
    }

    /// Whether the texts, the query, the response and the count are kept as an event
    /// leaves them.
    pub open spec fn keeps(&self, event: DoqEvent, next: DoqTransaction) -> bool {
        &&& next.server_name == self.server_name
        &&& next.upstream_port == self.upstream_port
        &&& next.query@ == if self.stage is Query && !(self.reaction(event) is Fail) {
            event->Read_0@
        } else {
            self.query@
        }
        &&& next.response@ == if self.stage is Response && !(self.reaction(event) is Fail) {
            event->Read_0@
        } else {
            self.response@
        }
        &&& next.bytes_sent == if self.stage is Response && !(self.reaction(event) is Fail) {
            metrics::wrapped_sum(self.bytes_sent, (event->Read_0@.len() + 2) as u64)
        } else {
            self.bytes_sent
        }
    }

    /// A transaction that has not begun: the length of the query is to be read.
    pub fn new(server_name: String, upstream_port: u16) -> (r: Self)
        ensures
            r.inv(),
            r.server_name == server_name,
            r.upstream_port == upstream_port,
            r.stage is QueryLength,
            r.bytes_sent == 0,
    {
        DoqTransaction {
            server_name,
            upstream_port,
            stage: DoqStage::QueryLength,
            query: Vec::new(),
            response: Vec::new(),
            awaited: 2,
            bytes_sent: 0,
        }
    }

    /// The error for a step whose time ran out.
    fn timed_out(&self) -> (r: DnsProxyError)
        ensures
            r@ == idle_timeout(operation(self.stage)),
    {
        match self.stage {
            DoqStage::QueryLength | DoqStage::TrailerLength | DoqStage::ResponseLength =>
                doq_idle_timeout("reading DoQ frame length"),
            DoqStage::Query | DoqStage::Trailer | DoqStage::Response => doq_idle_timeout(
                "reading DoQ message",
            ),
            DoqStage::Connect => doq_idle_timeout("opening upstream connection"),
            DoqStage::OpenStream => doq_idle_timeout("opening upstream stream"),
            DoqStage::SendLength | DoqStage::RelayLength => doq_idle_timeout(
                "writing DoQ frame length",
            ),
            _ => doq_idle_timeout("writing DoQ message"),
        }
    }

    /// The error for a step that failed.
    fn failed(&self, reason: &str) -> (r: DnsProxyError)
        ensures
            r@ == self.failure(reason@),
    {
        match self.stage {
            DoqStage::QueryLength | DoqStage::TrailerLength | DoqStage::ResponseLength =>
                DnsProxyError::Protocol(
                text::join("DoQ stream ended with an incomplete frame: ", reason),
            ),
            DoqStage::Query | DoqStage::Trailer | DoqStage::Response => DnsProxyError::Protocol(
                text::join("DoQ stream ended with an incomplete DNS message: ", reason),
            ),
            DoqStage::OpenStream => error::request_failed(
                text::join_port(self.server_name.as_str(), self.upstream_port).as_str(),
                text::join("Failed to open DoQ stream: ", reason).as_str(),
            ),
            DoqStage::FinishQuery => error::request_failed(
                text::join_port(self.server_name.as_str(), self.upstream_port).as_str(),
                text::join("Failed to finish DoQ query: ", reason).as_str(),
            ),
            DoqStage::SendLength | DoqStage::RelayLength => DnsProxyError::Protocol(
                text::join("Failed to write DoQ frame length: ", reason),
            ),
            DoqStage::SendQuery | DoqStage::Relay => DnsProxyError::Protocol(
                text::join("Failed to write DoQ frame body: ", reason),
            ),
            _ => DnsProxyError::Protocol(text::join("Failed to finish client stream: ", reason)),
        }
    }

    /// The transaction, given up.
    fn give_up(&mut self, error: DnsProxyError) -> (r: DoqAction)
        ensures
            *final(self) == (DoqTransaction { stage: DoqStage::Over, ..*old(self) }),
            r == (DoqAction::Fail { error, invalidate: old(self).stage is OpenStream }),
    {
        let invalidate = self.stage == DoqStage::OpenStream;
        self.stage = DoqStage::Over;
        DoqAction::Fail { error, invalidate }
    }

    /// Takes octets that were read.
    fn receive(&mut self, bytes: Vec<u8>) -> (r: DoqAction)
        requires
            old(self).inv(),
            old(self).awaits(DoqEvent::Read(bytes)),
        ensures
            final(self).inv(),
            old(self).obeys(old(self).reading(bytes@), *final(self), r),
            old(self).keeps(DoqEvent::Read(bytes), *final(self)),
    {
        match self.stage {
            DoqStage::QueryLength | DoqStage::TrailerLength | DoqStage::ResponseLength => {
                match read_doq_length(bytes.as_slice()) {
                    Err(error) => self.give_up(error),
                    Ok(n) => {
                        self.awaited = n;
                        match self.stage {
                            DoqStage::QueryLength => {
                                self.stage = DoqStage::Query;
                                DoqAction::ReadClient(n)
                            },
                            DoqStage::TrailerLength => {
                                self.stage = DoqStage::Trailer;
                                DoqAction::ReadClient(n)
                            },
                            _ => {
                                self.stage = DoqStage::Response;
                                DoqAction::ReadUpstream(n)
                            },
                        }
                    },
                }
            },
            DoqStage::Query => match check_doq_query(bytes.as_slice()) {
                Err(fault) => self.give_up(DnsProxyError::Protocol(fault)),
                Ok(()) => {
                    self.query = bytes;
                    self.awaited = 2;
                    self.stage = DoqStage::TrailerLength;
                    DoqAction::ReadClient(2)
                },
            },
            DoqStage::Trailer => self.give_up(
                DnsProxyError::Protocol("DoQ stream contains more than one query".to_owned()),
            ),
            _ => match check_doq_response(bytes.as_slice()) {
                Err(fault) => self.give_up(DnsProxyError::Protocol(fault)),
                Ok(()) => match write_doq_frame(bytes.as_slice()) {
                    Err(error) => self.give_up(error),
                    Ok(prefix) => {
                        self.bytes_sent = self.bytes_sent.wrapping_add((bytes.len() + 2) as u64);
                        self.response = bytes;
                        self.stage = DoqStage::RelayLength;
                        DoqAction::WriteClient(prefix)
                    },
                },
            },
        }
    }

    /// Goes on after a step that is done.
    fn advance(&mut self) -> (r: DoqAction)
        requires
            old(self).inv(),
            old(self).awaits(DoqEvent::Done),
        ensures
            final(self).inv(),
            old(self).obeys(old(self).reaction(DoqEvent::Done), *final(self), r),
            old(self).keeps(DoqEvent::Done, *final(self)),
    {
        match self.stage {
            DoqStage::Connect => {
                self.stage = DoqStage::OpenStream;
                DoqAction::OpenStream
            },
            DoqStage::OpenStream => match write_doq_frame(self.query.as_slice()) {
                Err(error) => self.give_up(error),
                Ok(prefix) => {
                    self.stage = DoqStage::SendLength;
                    DoqAction::WriteUpstream(prefix)
                },
            },
            DoqStage::SendLength => {
                self.stage = DoqStage::SendQuery;
                DoqAction::WriteUpstream(octets::copy_of(self.query.as_slice()))
            },
            DoqStage::SendQuery => {
                self.stage = DoqStage::FinishQuery;
                DoqAction::FinishUpstream
            },
            DoqStage::FinishQuery | DoqStage::Relay => {
                self.awaited = 2;
                self.stage = DoqStage::ResponseLength;
                DoqAction::ReadUpstream(2)
            },
            DoqStage::RelayLength => {
                self.stage = DoqStage::Relay;
                DoqAction::WriteClient(octets::copy_of(self.response.as_slice()))
            },
            _ => {
                self.stage = DoqStage::Over;
                DoqAction::Return {
                    bytes_received: (self.query.len() + 2) as u64,
                    bytes_sent: self.bytes_sent,
                }
            },
        }
    }

    /// Takes what came of the last step, and tells the next one.
    pub fn step(&mut self, event: DoqEvent) -> (r: DoqAction)
        requires
            old(self).inv(),
            old(self).awaits(event),
        ensures
            final(self).inv(),
            old(self).obeys(old(self).reaction(event), *final(self), r),
            old(self).keeps(event, *final(self)),
    {
        match event {
            DoqEvent::TimedOut => {
                let error = self.timed_out();
                self.give_up(error)
            },
            DoqEvent::Failed(reason) => {
                let error = self.failed(reason.as_str());
                self.give_up(error)
            },
            DoqEvent::Refused(error) => self.give_up(error),
            DoqEvent::Closed => match self.stage {
                DoqStage::QueryLength => self.give_up(
                    DnsProxyError::Protocol("DoQ stream ended before query frame".to_owned()),
                ),
                DoqStage::TrailerLength => {
                    self.stage = DoqStage::Connect;
                    DoqAction::Connect
                },
                _ => {
                    self.stage = DoqStage::FinishResponse;
                    DoqAction::FinishClient
                },
            },
            DoqEvent::Read(bytes) => self.receive(bytes),
            DoqEvent::Done => self.advance(),
        }
    }
}

/// Only queries with a DNS header and a zero message ID go upstream, only responses with
/// them come back, and each goes in its frame: the length that is written first and the
/// message that is written next make up the frame of the message.
pub proof fn messages_are_passed_on_in_frames(transaction: DoqTransaction, response: Vec<u8>)
    requires
        transaction.inv(),
    ensures
        transaction.stage is OpenStream ==> {
            let opened = DoqTransaction { stage: DoqStage::SendLength, ..transaction };
            &&& has_zero_id(transaction.query@)
            &&& transaction.reaction(DoqEvent::Done) matches DoqReaction::WriteUpstream {
                stage,
                bytes: prefix,
            } && stage is SendLength && (opened.reaction(DoqEvent::Done) matches
                DoqReaction::WriteUpstream { stage: after, bytes: message } && after is SendQuery
                && prefix + message == frame(transaction.query@))
        },
        transaction.stage is Response && has_zero_id(response@) ==> {
            let relayed = DoqTransaction { stage: DoqStage::RelayLength, response, ..transaction };
            transaction.reaction(DoqEvent::Read(response)) matches DoqReaction::WriteClient {
                stage,
                bytes: prefix,
            } && stage is RelayLength && (relayed.reaction(DoqEvent::Done) matches
                DoqReaction::WriteClient { stage: after, bytes: message } && after is Relay
                && prefix + message == frame(response@))
        },
        transaction.stage is Response && !has_zero_id(response@) ==> transaction.reaction(
            DoqEvent::Read(response),
        ) is Fail,
{
}

/// A transaction reaches its upstream only after the client has ended its stream behind
/// one query.
pub proof fn one_query_per_stream(transaction: DoqTransaction, event: DoqEvent)
    requires
        transaction.inv(),
        transaction.awaits(event),
        transaction.reaction(event) is Connect,
    ensures
        transaction.stage is TrailerLength,
        event is Closed,
        has_zero_id(transaction.query@),
{
}

/// Every response of 12 to 65535 octets whose first two octets are zero is relayed: the two
/// octets of its length go to the client first, the higher one first, and the response
/// next. Any other response ends the transaction.
pub proof fn responses_with_a_zero_id_are_relayed(transaction: DoqTransaction, response: Vec<u8>)
    requires
        transaction.stage is Response,
    ensures
        12 <= response@.len() <= 65535 && response@[0] == 0 && response@[1] == 0 ==> {
            &&& has_zero_id(response@)
            &&& transaction.reaction(DoqEvent::Read(response)) matches DoqReaction::WriteClient {
                stage,
                bytes,
            } && stage is RelayLength && bytes.len() == 2 && bytes[0] as nat * 256 + bytes[1] as nat
                == response@.len()
            &&& forall|next: DoqTransaction| #[trigger]
                transaction.keeps(DoqEvent::Read(response), next) && next.stage is RelayLength ==> {
                    &&& next.response@ == response@
                    &&& next.reaction(DoqEvent::Done) matches DoqReaction::WriteClient {
                        stage,
                        bytes,
                    } && stage is Relay && bytes == response@
                }
        },
        !(12 <= response@.len() && response@[0] == 0 && response@[1] == 0) ==> transaction.reaction(
            DoqEvent::Read(response),
        ) is Fail,
{
    let n = response@.len();
    let prefix = frame_prefix(n);
    if 12 <= n <= 65535 {
        assert(prefix[0] == (n / 256) as u8 && prefix[1] == (n % 256) as u8);
    }
}

/// Every query of 12 octets or more whose first two octets are zero is in order, and no
/// other is; the transaction then waits for the end of the client's stream and keeps it.
pub proof fn queries_with_a_zero_id_are_taken(transaction: DoqTransaction, query: Vec<u8>)
    requires
        transaction.stage is Query,
    ensures
        query_fault(query@) is None <==> 12 <= query@.len() && query@[0] == 0 && query@[1] == 0,
        12 <= query@.len() && query@[0] == 0 && query@[1] == 0 ==> {
            &&& transaction.reaction(DoqEvent::Read(query)) matches DoqReaction::ReadClient {
                stage,
                n,
            } && stage is TrailerLength && n == 2
            &&& forall|next: DoqTransaction| #[trigger]
                transaction.keeps(DoqEvent::Read(query), next) ==> next.query@ == query@
        },
        !(12 <= query@.len() && query@[0] == 0 && query@[1] == 0) ==> transaction.reaction(
            DoqEvent::Read(query),
        ) is Fail,
{
}

/// Two octets announce the number that they make up, the higher one first; only zero is
/// refused, and so many octets are then read from the same side.
pub proof fn announced_lengths_are_read(transaction: DoqTransaction, prefix: Vec<u8>)
    requires
        prefix@.len() == 2,
        transaction.stage is QueryLength || transaction.stage is TrailerLength
            || transaction.stage is ResponseLength,
    ensures
        ({
            let wanted = prefix@[0] as nat * 256 + prefix@[1] as nat;
            let reaction = transaction.reaction(DoqEvent::Read(prefix));
            &&& announced(prefix@) == wanted
            &&& reaction is Fail <==> wanted == 0
            &&& wanted > 0 ==> match transaction.stage {
                DoqStage::QueryLength => reaction == (DoqReaction::ReadClient {
                    stage: DoqStage::Query,
                    n: wanted,
                }),
                DoqStage::TrailerLength => reaction == (DoqReaction::ReadClient {
                    stage: DoqStage::Trailer,
                    n: wanted,
                }),
                _ => reaction == (DoqReaction::ReadUpstream { stage: DoqStage::Response, n: wanted }),
            }
        }),
{
}

/// A query that is complete goes to the upstream: a connection and a stream are opened, the
/// two octets of its length and then the query itself are written, the higher octet first,
/// and the stream is finished before responses are read.
pub proof fn complete_queries_go_upstream(transaction: DoqTransaction)
    requires
        transaction.query@.len() <= 65535,
    ensures
        ({
            let done = transaction.reaction(DoqEvent::Done);
            match transaction.stage {
                DoqStage::TrailerLength => transaction.reaction(DoqEvent::Closed) is Connect,
                DoqStage::Connect => done is OpenStream,
                DoqStage::OpenStream => done matches DoqReaction::WriteUpstream { stage, bytes }
                    && stage is SendLength && bytes.len() == 2 && bytes[0] as nat * 256
                    + bytes[1] as nat == transaction.query@.len(),
                DoqStage::SendLength => done == (DoqReaction::WriteUpstream {
                    stage: DoqStage::SendQuery,
                    bytes: transaction.query@,
                }),
                DoqStage::SendQuery => done is FinishUpstream,
                DoqStage::FinishQuery => done == (DoqReaction::ReadUpstream {
                    stage: DoqStage::ResponseLength,
                    n: 2,
                }),
                _ => true,
            }
        }),
{
    let n = transaction.query@.len();
    assert(frame_prefix(n)[0] == (n / 256) as u8 && frame_prefix(n)[1] == (n % 256) as u8);
}

/// After each response that was relayed the next one is awaited, until the upstream ends its
/// stream; then the client's stream is finished, and the transaction returns the octets of
/// the framed query and of all framed responses.
pub proof fn every_response_is_relayed(
    transaction: DoqTransaction,
    next: DoqTransaction,
    action: DoqAction,
)
    ensures
        transaction.stage is Relay ==> transaction.reaction(DoqEvent::Done) == (
        DoqReaction::ReadUpstream { stage: DoqStage::ResponseLength, n: 2 }),
        transaction.stage is ResponseLength ==> transaction.reaction(
            DoqEvent::Closed,
        ) is FinishClient,
        transaction.stage is FinishResponse ==> transaction.reaction(DoqEvent::Done) is Return,
        transaction.query@.len() <= 65535 && transaction.obeys(
            DoqReaction::Return,
            next,
            action,
        ) ==> (action matches DoqAction::Return { bytes_received, bytes_sent } && bytes_received
            == transaction.query@.len() + 2 && bytes_sent == transaction.bytes_sent),
{
}

/// A response that is relayed adds its octets and the two of its length to those sent; no
/// other event changes that number, the query or the response, but for a query that comes.
pub proof fn octets_are_counted_with_their_frames(
    transaction: DoqTransaction,
    event: DoqEvent,
    next: DoqTransaction,
)
    requires
        transaction.keeps(event, next),
    ensures
        next.server_name == transaction.server_name,
        next.upstream_port == transaction.upstream_port,
        transaction.stage is Response && !(transaction.reaction(event) is Fail) && (event matches
            DoqEvent::Read(bytes) && bytes@.len() <= 65535 && transaction.bytes_sent + bytes@.len()
            + 2 <= u64::MAX) ==> next.bytes_sent == transaction.bytes_sent + event->Read_0@.len()
            + 2,
        !(transaction.stage is Response) ==> next.bytes_sent == transaction.bytes_sent
            && next.response@ == transaction.response@,
        !(transaction.stage is Query) ==> next.query@ == transaction.query@,
{
}

/// A second frame of the client, and a stream that ends before the query, end the
/// transaction; so do a step that fails or takes too long, and a connection that is refused,
/// whose error is reported.
pub proof fn transactions_end_on_faults(
    transaction: DoqTransaction,
    bytes: Vec<u8>,
    reason: String,
    error: DnsProxyError,
)
    ensures
        transaction.stage is Trailer ==> transaction.reaction(DoqEvent::Read(bytes)) is Fail,
        transaction.stage is QueryLength ==> transaction.reaction(DoqEvent::Closed) is Fail,
        transaction.reaction(DoqEvent::TimedOut) is Fail,
        transaction.reaction(DoqEvent::Failed(reason)) is Fail,
        transaction.reaction(DoqEvent::Refused(error)) == DoqReaction::Fail(error@),
{
}

/// An action carries what the reaction asks for: the octets that are to be written, the
/// number that is to be read, or the error. Only a stream that could not be opened makes the
/// pool drop its connection.
pub proof fn actions_carry_what_is_asked_for(
    transaction: DoqTransaction,
    reaction: DoqReaction,
    next: DoqTransaction,
    action: DoqAction,
)
    requires
        transaction.obeys(reaction, next, action),
    ensures
        reaction matches DoqReaction::WriteUpstream { stage, bytes } ==> (action matches
            DoqAction::WriteUpstream(sent) && sent@ == bytes) && next.stage == stage,
        reaction matches DoqReaction::WriteClient { stage, bytes } ==> (action matches
            DoqAction::WriteClient(sent) && sent@ == bytes) && next.stage == stage,
        reaction matches DoqReaction::ReadClient { stage, n } ==> n <= 65535 ==> action
            == DoqAction::ReadClient(n as usize) && next.awaited == n && next.stage == stage,
        reaction matches DoqReaction::ReadUpstream { stage, n } ==> n <= 65535 ==> action
            == DoqAction::ReadUpstream(n as usize) && next.awaited == n && next.stage == stage,
        reaction is Connect ==> action is Connect && next.stage is Connect,
        reaction is OpenStream ==> action is OpenStream && next.stage is OpenStream,
        reaction is FinishUpstream ==> action is FinishUpstream && next.stage is FinishQuery,
        reaction is FinishClient ==> action is FinishClient && next.stage is FinishResponse,
        reaction matches DoqReaction::Fail(fault) ==> (action matches DoqAction::Fail {
            error,
            invalidate,
        } && error@ == fault && (invalidate <==> transaction.stage is OpenStream)),
{
}

/// Whatever can come of a step is taken: octets of the number that was asked for, the end of
/// a stream before a frame, a connection or a refusal, a step that is done, fails or takes
/// too long.
pub proof fn transactions_take_whatever_can_come(
    transaction: DoqTransaction,
    bytes: Vec<u8>,
    reason: String,
    error: DnsProxyError,
)
    ensures
        ({
            let stage = transaction.stage;
            let length = stage is QueryLength || stage is TrailerLength || stage is ResponseLength;
            let message = stage is Query || stage is Trailer || stage is Response;
            let writes = stage is OpenStream || stage is SendLength || stage is SendQuery
                || stage is RelayLength || stage is Relay;
            let finishes = stage is FinishQuery || stage is FinishResponse;
            &&& length ==> transaction.awaits(DoqEvent::Closed) && (bytes@.len() == 2
                ==> transaction.awaits(DoqEvent::Read(bytes)))
            &&& message && bytes@.len() == transaction.awaited ==> transaction.awaits(
                DoqEvent::Read(bytes),
            )
            &&& stage is Connect ==> transaction.awaits(DoqEvent::Done) && transaction.awaits(
                DoqEvent::Refused(error),
            )
            &&& writes || finishes ==> transaction.awaits(DoqEvent::Done)
            &&& length || message || writes || finishes ==> transaction.awaits(
                DoqEvent::Failed(reason),
            )
            &&& length || message || writes || stage is Connect ==> transaction.awaits(
                DoqEvent::TimedOut,
            )
        }),
{
}

/// The frame of a message is its length in two octets, the higher one first, and the message.
pub proof fn frames_begin_with_the_length(message: Seq<u8>)
    requires
        message.len() <= 65535,
    ensures
        frame(message).len() == message.len() + 2,
        frame(message)[0] as nat * 256 + frame(message)[1] as nat == message.len(),
        frame(message).skip(2) == message,
        is_frame_length(message.len()) <==> message.len() >= 1,
{
    let n = message.len();
    assert(frame_prefix(n)[0] == (n / 256) as u8 && frame_prefix(n)[1] == (n % 256) as u8);
    assert(frame(message).skip(2) == message);
}

/// The kind of an error tells whose fault it is: what breaks the protocol is a protocol error,
/// a step that took too long a timeout, and a stream to the upstream that could not be opened
/// or finished a failed request to that upstream, with the transport's words.
pub proof fn faults_are_of_their_kind(
    transaction: DoqTransaction,
    bytes: Vec<u8>,
    reason: String,
)
    ensures
        transaction.reaction(DoqEvent::TimedOut) matches DoqReaction::Fail(fault)
            && fault is Timeout,
        transaction.stage is OpenStream || transaction.stage is FinishQuery ==> (
        transaction.reaction(DoqEvent::Failed(reason)) matches DoqReaction::Fail(
            ErrorView::RequestFailed { upstream, reason: told },
        ) && upstream == text::with_port(transaction.server_name@, transaction.upstream_port)
            && text::ends_with(told, reason@)),
        !(transaction.stage is OpenStream || transaction.stage is FinishQuery) ==> (
        transaction.reaction(DoqEvent::Failed(reason)) matches DoqReaction::Fail(
            ErrorView::Protocol(told),
        ) && text::ends_with(told, reason@)),
        transaction.reaction(DoqEvent::Read(bytes)) matches DoqReaction::Fail(fault)
            ==> fault is Protocol,
        transaction.reaction(DoqEvent::Closed) matches DoqReaction::Fail(fault)
            ==> fault is Protocol,
{
    let r = reason@;
    text::ends_and_beginnings("DoQ stream ended with an incomplete frame: "@, r, ' ');
    text::ends_and_beginnings("DoQ stream ended with an incomplete DNS message: "@, r, ' ');
    text::ends_and_beginnings("Failed to open DoQ stream: "@, r, ' ');
    text::ends_and_beginnings("Failed to finish DoQ query: "@, r, ' ');
    text::ends_and_beginnings("Failed to write DoQ frame length: "@, r, ' ');
    text::ends_and_beginnings("Failed to write DoQ frame body: "@, r, ' ');
    text::ends_and_beginnings("Failed to finish client stream: "@, r, ' ');
}

} // verus!
