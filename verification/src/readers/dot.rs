//! DNS over TLS.
//!
//! A connection carries a continuous sequence of DNS messages, each behind its length.
//! It is relayed as it comes in both directions, which keeps pipelined queries and
//! answers of several messages whole.
use crate::config::AppConfig;
use crate::error;
use crate::error::{DnsProxyError, DnsProxyResult, ErrorView};
use crate::metrics;
use crate::metrics::{Metrics, MetricsSnapshot};
use crate::readers::streams;
use crate::rewrite::SniRewriterType;
use crate::rewriters::base;
use crate::rewriters::base::BaseSniRewriter;
use crate::text;
use crate::utils;
use crate::utils::backoff::BackoffCounter;
use std::sync::Arc;
use vstd::prelude::*;

verus! {

/// A DoT listener. `M` shares the metrics with other listeners.
pub struct DoTServer<M> {
    pub config: Arc<AppConfig>,
    pub rewriter: SniRewriterType,
    /// The failures to accept a connection, over all runs of the listener.
    pub backoff: BackoffCounter,
    pub metrics: M,
    /// The authorities that upstream certificates may come from, unless they are those
    /// of the platform.
    pub root_store: Option<Arc<rustls::RootCertStore>>,
}

impl<M> DoTServer<M> {
    /// A listener that trusts the authorities of the platform.
    pub fn new(config: Arc<AppConfig>, rewriter: SniRewriterType, metrics: M) -> (r: Self)
        ensures
            r.config == config,
            r.rewriter == rewriter,
            r.metrics == metrics,
            r.backoff.failures() == 0,
            r.root_store is None,
    {
        DoTServer {
            config,
            rewriter,
            backoff: BackoffCounter::new(),
            metrics,
            root_store: None,
        }
    }

    /// A listener with a given trust store.
    pub fn with_root_store(
        config: Arc<AppConfig>,
        rewriter: SniRewriterType,
        metrics: M,
        root_store: Arc<rustls::RootCertStore>,
    ) -> (r: Self)
        ensures
            r.config == config,
            r.rewriter == rewriter,
            r.metrics == metrics,
            r.backoff.failures() == 0,
            r.root_store == Some(root_store),
    {
        DoTServer {
            config,
            rewriter,
            backoff: BackoffCounter::new(),
            metrics,
            root_store: Some(root_store),
        }
    }
}

/// What the `rustls` crate says of a text that is no server name, if it is none.
pub uninterp spec fn server_name_fault(name: Seq<char>) -> Option<Seq<char>>;

/// Calls `ServerName::try_from` of the `rustls` crate: whether a text is a server name,
/// and what is said of one that is none, is a function of the text.
#[verifier::external_body]
fn judge_server_name(name: &str) -> (r: Option<String>)
    ensures
        utils::is_text(r, server_name_fault(name@)),
{
    match rustls::pki_types::ServerName::try_from(name) {
        Ok(_) => None,
        Err(fault) => Some(fault.to_string()),
    }
}

/// How far a connection has come.
#[derive(Debug, Clone, Copy, PartialEq, Eq, Structural)]
pub enum DotStage {
    /// A connection to the upstream is being opened.
    Connect,
    /// TLS towards the upstream is being set up.
    Configure,
    /// The TLS handshake with the upstream is under way.
    Secure,
    /// The connection is being relayed.
    Relay,
    /// The connection is done.
    Over,
}

/// What came of the last step.
#[derive(Debug, Clone)]
pub enum DotEvent {
    /// The step is done.
    Done,
    /// The step failed, with the system's words.
    Failed(String),
    /// TLS cannot be set up.
    Refused(DnsProxyError),
    /// The connection was relayed to its end; so many octets went each way.
    Relayed { to_upstream: u64, to_client: u64 },
}

/// What is to be done next.
#[derive(Debug)]
pub enum DotAction {
    Configure,
    Secure,
    Relay,
    /// The connection is done.
    Return(DnsProxyResult<()>),
}

/// What an event has a connection do.
#[verifier::ext_equal]
pub enum DotReaction {
    Go(DotStage),
    Finish,
    Fail(ErrorView),
}

/// A connection and its upstream.
#[derive(Debug, Clone)]
pub struct DotConnection {
    pub target: String,
    pub upstream_port: u16,
    pub stage: DotStage,
}

impl DotConnection {
    /// The upstream.
    pub open spec fn authority(&self) -> Seq<char> {
        text::with_port(self.target@, self.upstream_port)
    }

    /// Whether an event can come at this stage.
    pub open spec fn awaits(&self, event: DotEvent) -> bool {
        match self.stage {
            DotStage::Connect | DotStage::Secure => event is Done || event is Failed,
            DotStage::Configure => event is Done || event is Refused,
            DotStage::Relay => event is Relayed || event is Failed,
            DotStage::Over => false,
        }
    }

    /// What an event has a connection do. `name_fault` is what is wrong with the server
    /// name of the upstream.
    pub open spec fn reaction(&self, event: DotEvent, name_fault: Option<Seq<char>>)
        -> DotReaction {
        match event {
            DotEvent::Relayed { .. } => DotReaction::Finish,
            DotEvent::Refused(error) => DotReaction::Fail(
                ErrorView::Tls(error::message_of(error@)),
            ),
            DotEvent::Failed(reason) => DotReaction::Fail(
                match self.stage {
                    DotStage::Connect => ErrorView::ConnectionFailed {
                        upstream: self.authority(),
                        reason: "Failed to connect: "@ + reason@,
                    },
                    DotStage::Secure => ErrorView::ConnectionFailed {
                        upstream: self.authority(),
                        reason: "Failed to establish TLS connection: "@ + reason@,
                    },
                    _ => ErrorView::Io(reason@),
                },
            ),
            DotEvent::Done => match self.stage {
                DotStage::Connect => DotReaction::Go(DotStage::Configure),
                DotStage::Configure => match name_fault {
                    Some(fault) => DotReaction::Fail(
                        ErrorView::InvalidInput(
                            "Failed to create ServerName for upstream connection: "@ + fault,
                        ),
                    ),
                    None => DotReaction::Go(DotStage::Secure),
                },
                _ => DotReaction::Go(DotStage::Relay),
            },
        }
    }

    /// Whether an action does what a reaction asks for, and the connection has moved on.
    pub open spec fn obeys(&self, reaction: DotReaction, next: DotConnection, action: DotAction)
        -> bool {
        &&& next == (DotConnection { stage: next.stage, ..*self })
        &&& match reaction {
            DotReaction::Go(stage) => {
                &&& next.stage == stage
                &&& match stage {
                    DotStage::Configure => action is Configure,
                    DotStage::Secure => action is Secure,
                    _ => action is Relay,
                }
            },
            DotReaction::Finish => action matches DotAction::Return(Ok(_)) && next.stage is Over,
            DotReaction::Fail(fault) => {
                &&& action matches DotAction::Return(Err(error)) && error@ == fault
                &&& next.stage is Over
            },
        }
    }

    /// The counters after an event: a connection counts once it has been relayed.
    pub open spec fn counted(
        &self,
        event: DotEvent,
        elapsed_micros: u128,
        before: MetricsSnapshot,
    ) -> MetricsSnapshot {
        match event {
            DotEvent::Relayed { to_upstream, to_client } => before.with_request(
                true,
                to_upstream,
                to_client,
                elapsed_micros,
            ),
            DotEvent::Failed(_) => if self.stage is Relay {
                before.with_request(false, 0, 0, elapsed_micros)
            } else {
                before
            },
            _ => before,
        }
    }

    /// A connection from a client that sent the given server name: a connection to its
    /// upstream is to be opened.
    pub fn start(server_name: Option<&str>, upstream_port: u16, rewriter: &BaseSniRewriter) -> (r:
        DnsProxyResult<DotConnection>)
        ensures
            match server_name {
                None => r matches Err(error) && error@ == ErrorView::InvalidInput(
                    "DoT requires a TLS SNI hostname"@,
                ),
                Some(name) => match base::rewritten(rewriter.bases(), rewriter.suffix(), name@) {
                    Some(target) => r matches Ok(connection) && connection.target@
                        == target.target_hostname && connection.upstream_port == upstream_port
                        && connection.stage is Connect,
                    None => r matches Err(error) && error@ == (ErrorView::NoMatchingBaseDomain {
                        hostname: name@,
                    }),
                },
            },
    {
        match streams::required_server_name(server_name, "DoT requires a TLS SNI hostname") {
            Err(error) => Err(error),
            Ok(name) => match rewriter.rewrite(name.as_str()) {
                Some(target) => Ok(
                    DotConnection {
                        target: target.target_hostname,
                        upstream_port,
                        stage: DotStage::Connect,
                    },
                ),
                None => Err(error::no_matching_base_domain(name.as_str())),
            },
        }
    }

    /// The connection, given up.
    fn give_up(&mut self, error: DnsProxyError) -> (r: DotAction)
        ensures
            *final(self) == (DotConnection { stage: DotStage::Over, ..*old(self) }),
            r == DotAction::Return(Err(error)),
    {
        self.stage = DotStage::Over;
        DotAction::Return(Err(error))
    }

    /// Takes what came of the last step and what is wrong with the server name of the
    /// upstream, and tells the next step. What was relayed is counted.
    pub fn step_with(
        &mut self,
        event: DotEvent,
        name_fault: Option<String>,
        elapsed_micros: u128,
        metrics: &mut Metrics,
    ) -> (r: DotAction)
        requires
            old(self).awaits(event),
        ensures
            old(self).obeys(
                old(self).reaction(
                    event,
                    match name_fault {
                        Some(fault) => Some(fault@),
                        None => None,
                    },
                ),
                *final(self),
                r,
            ),
            final(metrics)@ == old(self).counted(event, elapsed_micros, old(metrics)@),
    {
        match event {
            DotEvent::Relayed { to_upstream, to_client } => {
                metrics.record_request(true, to_upstream, to_client, elapsed_micros);
                self.stage = DotStage::Over;
                DotAction::Return(Ok(()))
            },
            DotEvent::Refused(error) => self.give_up(DnsProxyError::Tls(error.message())),
            DotEvent::Failed(reason) => {
                let upstream = text::join_port(self.target.as_str(), self.upstream_port);
                match self.stage {
                    DotStage::Connect => self.give_up(
                        error::connection_failed(
                            upstream.as_str(),
                            text::join("Failed to connect: ", reason.as_str()).as_str(),
                        ),
                    ),
                    DotStage::Secure => self.give_up(
                        error::connection_failed(
                            upstream.as_str(),
                            text::join(
                                "Failed to establish TLS connection: ",
                                reason.as_str(),
                            ).as_str(),
                        ),
                    ),
                    _ => {
                        metrics.record_request(false, 0, 0, elapsed_micros);
                        self.give_up(DnsProxyError::Io(reason))
                    },
                }
            },
            DotEvent::Done => match self.stage {
                DotStage::Connect => {
                    self.stage = DotStage::Configure;
                    DotAction::Configure
                },
                DotStage::Configure => match name_fault {
                    Some(fault) => self.give_up(
                        DnsProxyError::InvalidInput(
                            text::join(
                                "Failed to create ServerName for upstream connection: ",
                                fault.as_str(),
                            ),
                        ),
                    ),
                    None => {
                        self.stage = DotStage::Secure;
                        DotAction::Secure
                    },
                },
                _ => {
                    self.stage = DotStage::Relay;
                    DotAction::Relay
                },
            },
        }
    }

    /// Takes what came of the last step, and tells the next one. What was relayed is
    /// counted.
    pub fn step(&mut self, event: DotEvent, elapsed_micros: u128, metrics: &mut Metrics) -> (r:
        DotAction)
        requires
            old(self).awaits(event),
        ensures
            old(self).obeys(
                old(self).reaction(event, server_name_fault(old(self).target@)),
                *final(self),
                r,
            ),
            final(metrics)@ == old(self).counted(event, elapsed_micros, old(metrics)@),
    {
        let name_fault = judge_server_name(self.target.as_str());
        self.step_with(event, name_fault, elapsed_micros, metrics)
    }
}

/// A connection is counted once, when its relay has ended: a success or a failure, and
/// nothing that happens before.
pub proof fn relayed_connections_are_counted_once(
    connection: DotConnection,
    event: DotEvent,
    name_fault: Option<Seq<char>>,
    next: DotConnection,
    action: DotAction,
    elapsed_micros: u128,
    before: MetricsSnapshot,
)
    requires
        connection.awaits(event),
        connection.obeys(connection.reaction(event, name_fault), next, action),
    ensures
        !(connection.stage is Relay) ==> connection.counted(event, elapsed_micros, before)
            == before,
        connection.stage is Relay ==> next.stage is Over && connection.counted(
            event,
            elapsed_micros,
            before,
        ).total_requests == metrics::wrapped_sum(before.total_requests, 1),
{
}

/// A connection that meets no trouble is opened, secured and relayed, in this order, and
/// ends without an error; trouble at any stage ends it with one, as does a target that is no
/// server name.
pub proof fn connections_are_opened_secured_and_relayed(
    connection: DotConnection,
    reason: String,
    error: DnsProxyError,
    fault: Seq<char>,
    to_upstream: u64,
    to_client: u64,
)
    ensures
        connection.stage is Connect ==> connection.reaction(DotEvent::Done, None)
            == DotReaction::Go(DotStage::Configure),
        connection.stage is Configure ==> connection.reaction(DotEvent::Done, None)
            == DotReaction::Go(DotStage::Secure) && connection.reaction(
            DotEvent::Done,
            Some(fault),
        ) is Fail,
        connection.stage is Secure ==> connection.reaction(DotEvent::Done, None) == DotReaction::Go(
            DotStage::Relay,
        ),
        connection.reaction(DotEvent::Relayed { to_upstream, to_client }, None) is Finish,
        connection.reaction(DotEvent::Failed(reason), None) is Fail,
        connection.reaction(DotEvent::Refused(error), None) is Fail,
        connection.authority() == text::with_port(connection.target@, connection.upstream_port),
{
}

/// A connection does what its reaction asks for and keeps its target.
pub proof fn connections_do_what_is_asked(
    connection: DotConnection,
    reaction: DotReaction,
    next: DotConnection,
    action: DotAction,
)
    requires
        connection.obeys(reaction, next, action),
    ensures
        next.target == connection.target && next.upstream_port == connection.upstream_port,
        reaction == DotReaction::Go(DotStage::Configure) ==> action is Configure
            && next.stage is Configure,
        reaction == DotReaction::Go(DotStage::Secure) ==> action is Secure && next.stage is Secure,
        reaction == DotReaction::Go(DotStage::Relay) ==> action is Relay && next.stage is Relay,
        reaction is Finish ==> (action matches DotAction::Return(Ok(_))) && next.stage is Over,
        reaction matches DotReaction::Fail(fault) ==> (action matches DotAction::Return(Err(error))
            && error@ == fault) && next.stage is Over,
{
}

/// A connection that was relayed counts as a success with the octets that went each way, and
/// one whose relay failed as a failure without any.
pub proof fn relays_are_counted_with_their_octets(
    connection: DotConnection,
    to_upstream: u64,
    to_client: u64,
    reason: String,
    elapsed_micros: u128,
    before: MetricsSnapshot,
)
    requires
        connection.stage is Relay,
        before.successful_requests < u64::MAX,
        before.failed_requests < u64::MAX,
        before.bytes_received + to_upstream <= u64::MAX,
        before.bytes_sent + to_client <= u64::MAX,
    ensures
        ({
            let after = connection.counted(
                DotEvent::Relayed { to_upstream, to_client },
                elapsed_micros,
                before,
            );
            &&& after.successful_requests == before.successful_requests + 1
            &&& after.failed_requests == before.failed_requests
            &&& after.bytes_received == before.bytes_received + to_upstream
            &&& after.bytes_sent == before.bytes_sent + to_client
            &&& after.upstream_errors == before.upstream_errors
        }),
        ({
            let after = connection.counted(DotEvent::Failed(reason), elapsed_micros, before);
            &&& after.failed_requests == before.failed_requests + 1
            &&& after.successful_requests == before.successful_requests
            &&& after.bytes_received == before.bytes_received
            &&& after.bytes_sent == before.bytes_sent
            &&& after.upstream_errors == before.upstream_errors
        }),
{
}

/// Whatever can come of a step is taken.
pub proof fn connections_take_whatever_can_come(
    connection: DotConnection,
    reason: String,
    error: DnsProxyError,
    to_upstream: u64,
    to_client: u64,
)
    ensures
        connection.stage is Connect || connection.stage is Secure ==> connection.awaits(
            DotEvent::Done,
        ) && connection.awaits(DotEvent::Failed(reason)),
        connection.stage is Configure ==> connection.awaits(DotEvent::Done) && connection.awaits(
            DotEvent::Refused(error),
        ),
        connection.stage is Relay ==> connection.awaits(
            DotEvent::Relayed { to_upstream, to_client },
        ) && connection.awaits(DotEvent::Failed(reason)),
{
}

/// The kind of an error tells what went wrong: a connection that could not be opened or
/// secured is one that failed, by host and port; a relay that broke off is an I/O error with
/// the system's words; TLS that could not be set up is a TLS error; and a target that is no
/// server name is invalid input.
pub proof fn faults_are_of_their_kind(
    connection: DotConnection,
    reason: String,
    error: DnsProxyError,
    fault: Seq<char>,
)
    ensures
        connection.stage is Connect || connection.stage is Secure ==> (connection.reaction(
            DotEvent::Failed(reason),
            None,
        ) matches DotReaction::Fail(ErrorView::ConnectionFailed { upstream, reason: told })
            && upstream == text::with_port(connection.target@, connection.upstream_port)
            && text::ends_with(told, reason@)),
        connection.stage is Relay ==> connection.reaction(DotEvent::Failed(reason), None)
            == DotReaction::Fail(ErrorView::Io(reason@)),
        connection.reaction(DotEvent::Refused(error), None) == DotReaction::Fail(
            ErrorView::Tls(error::message_of(error@)),
        ),
        connection.stage is Configure ==> (connection.reaction(
            DotEvent::Done,
            Some(fault),
        ) matches DotReaction::Fail(ErrorView::InvalidInput(told)) && text::ends_with(told, fault)),
{
    text::ends_and_beginnings("Failed to connect: "@, reason@, ' ');
    text::ends_and_beginnings("Failed to establish TLS connection: "@, reason@, ' ');
    text::ends_and_beginnings(
        "Failed to create ServerName for upstream connection: "@,
        fault,
        ' ',
    );
}

} // verus!
