//! The life of a listener: how it comes up, accepts connections and goes down.
use crate::config::ServersConfig;
use crate::error;
use crate::error::{DnsProxyError, DnsProxyResult, ErrorView};
use crate::octets;
use crate::quic::config::QuicApplication;
use crate::text;
use crate::utils::backoff;
use crate::utils::backoff::BackoffCounter;
use vstd::prelude::*;

verus! {

/// The delay after the first failure to accept a connection, in milliseconds.
pub const ACCEPT_DELAY_MS: u64 = 100;

/// The longest delay after a failure to accept a connection, in milliseconds.
pub const MAX_ACCEPT_DELAY_MS: u64 = 5000;

/// How long connections may go on after a listener has stopped, in seconds.
pub const TASK_GRACE_SECONDS: u64 = 10;

/// The kinds of listeners.
#[derive(Debug, Clone, Copy, PartialEq, Eq, Structural)]
pub enum ServerKind {
    Healthcheck,
    Dot,
    Doh,
    Doq,
    Doh3,
}

impl ServerKind {
    /// The name of the listener.
    pub open spec fn name_text(self) -> Seq<char> {
        match self {
            ServerKind::Healthcheck => "healthcheck"@,
            ServerKind::Dot => "DoT"@,
            ServerKind::Doh => "DoH"@,
            ServerKind::Doq => "DoQ"@,
            ServerKind::Doh3 => "DoH3"@,
        }
    }

    /// The name of the listener.
    pub fn name(self) -> (r: &'static str)
        ensures
            r@ == self.name_text(),
    {
        match self {
            ServerKind::Healthcheck => "healthcheck",
            ServerKind::Dot => "DoT",
            ServerKind::Doh => "DoH",
            ServerKind::Doq => "DoQ",
            ServerKind::Doh3 => "DoH3",
        }
    }

    /// Whether the listener runs over QUIC.
    pub open spec fn is_quic(self) -> bool {
        self is Doq || self is Doh3
    }

    /// Whether the listener looks after its connections when it stops, and stops while
    /// it waits for room for another one.
    pub open spec fn is_supervised(self) -> bool {
        self.is_quic() || self is Healthcheck
    }

    /// Whether a configuration has the listener.
    pub open spec fn is_enabled(self, servers: ServersConfig) -> bool {
        match self {
            ServerKind::Healthcheck => servers.healthcheck.enabled,
            ServerKind::Dot => servers.dot.enabled,
            ServerKind::Doh => servers.doh.enabled,
            ServerKind::Doq => servers.doq.enabled,
            ServerKind::Doh3 => servers.doh3.enabled,
        }
    }

    /// Whether a configuration has the listener.
    pub fn enabled(self, servers: &ServersConfig) -> (r: bool)
        ensures
            r == self.is_enabled(*servers),
    {
        match self {
            ServerKind::Healthcheck => servers.healthcheck.enabled,
            ServerKind::Dot => servers.dot.enabled,
            ServerKind::Doh => servers.doh.enabled,
            ServerKind::Doq => servers.doq.enabled,
            ServerKind::Doh3 => servers.doh3.enabled,
        }
    }
}

/// The application protocols that a listener offers in the TLS handshake. DoT clients
/// that offer none are served too.
pub open spec fn offered_protocols(kind: ServerKind) -> Seq<Seq<u8>> {
    match kind {
        ServerKind::Healthcheck => Seq::empty(),
        ServerKind::Dot => seq![vstd::utf8::encode_utf8("dot"@)],
        ServerKind::Doh => seq![
            vstd::utf8::encode_utf8("h2"@),
            vstd::utf8::encode_utf8("http/1.1"@),
        ],
        ServerKind::Doq => seq![QuicApplication::Doq.alpn_bytes()],
        ServerKind::Doh3 => seq![QuicApplication::H3.alpn_bytes()],
    }
}

/// The application protocols that a listener offers in the TLS handshake.
pub fn alpn_protocols(kind: ServerKind) -> (r: Vec<Vec<u8>>)
    ensures
        octets::all(r@) == offered_protocols(kind),
{
    let mut list: Vec<Vec<u8>> = Vec::new();
    match kind {
        ServerKind::Healthcheck => {},
        ServerKind::Dot => list.push(octets::copy_of("dot".as_bytes())),
        ServerKind::Doh => {
            list.push(octets::copy_of("h2".as_bytes()));
            list.push(octets::copy_of("http/1.1".as_bytes()));
        },
        ServerKind::Doq => list.push(octets::copy_of(QuicApplication::Doq.alpn())),
        ServerKind::Doh3 => list.push(octets::copy_of(QuicApplication::H3.alpn())),
    }
    assert(octets::all(list@) == offered_protocols(kind));
    list
}

/// How far a listener has come.
#[derive(Debug, Clone, Copy, PartialEq, Eq, Structural)]
pub enum ListenerStage {
    /// The bind address is being parsed.
    ParseAddress,
    /// Certificates and keys are being set up.
    SetUpTls,
    /// The socket is being bound.
    Bind,
    /// The QUIC endpoint is being opened, with its socket.
    OpenEndpoint,
    /// A connection is awaited.
    Accept,
    /// Room for a connection is awaited.
    Permit,
    /// The listener pauses after a failure.
    Pause,
    /// The connections are being closed.
    CloseTasks,
    /// The listener is gone.
    Over,
}

/// What came of the last step.
#[derive(Debug, Clone)]
pub enum ListenerEvent {
    /// The step is done.
    Done,
    /// The step failed, with the system's words.
    Failed(String),
    /// The listener is to stop.
    Shutdown,
    /// No more connections will come, or no more can be handled.
    Closed,
}

/// What is to be done next.
#[derive(Debug)]
pub enum ListenerAction {
    ParseAddress,
    SetUpTls,
    Bind,
    OpenEndpoint,
    /// Await a connection.
    Accept,
    /// Await room for the connection that was accepted.
    AcquirePermit,
    /// Hand the connection to a task of its own, and await the next one.
    Spawn,
    /// Pause for so many milliseconds.
    Pause(u64),
    /// Close all connections within so many seconds.
    CloseTasks(u64),
    /// The listener is gone.
    Return(DnsProxyResult<()>),
}

/// What is to be done next, and what is reported first to whoever waits for the
/// listener to be ready.
#[derive(Debug)]
pub struct ListenerStep {
    pub notice: Option<DnsProxyResult<()>>,
    pub action: ListenerAction,
}

/// What is reported to whoever waits for the listener to be ready.
#[verifier::ext_equal]
pub enum Notice {
    Nothing,
    Ready,
    Failed(ErrorView),
}

/// What an event has a listener do.
#[verifier::ext_equal]
pub enum ListenerReaction {
    /// Go on to a stage.
    Go(ListenerStage),
    /// Hand over the connection that was accepted, and await the next one.
    Spawn,
    /// Stop accepting connections.
    Stop,
    /// Fail.
    Fail(ErrorView),
}

/// A listener.
#[derive(Debug)]
pub struct Listener {
    pub kind: ServerKind,
    pub stage: ListenerStage,
    pub backoff: BackoffCounter,
}

/// Where a listener of some kind begins.
pub open spec fn first_stage(kind: ServerKind) -> ListenerStage {
    match kind {
        ServerKind::Dot => ListenerStage::SetUpTls,
        ServerKind::Doq | ServerKind::Doh3 => ListenerStage::ParseAddress,
        _ => ListenerStage::Bind,
    }
}

/// The stage at which a listener of some kind becomes ready.
pub open spec fn last_setup_stage(kind: ServerKind) -> ListenerStage {
    match kind {
        ServerKind::Doh => ListenerStage::SetUpTls,
        ServerKind::Doq | ServerKind::Doh3 => ListenerStage::OpenEndpoint,
        _ => ListenerStage::Bind,
    }
}

impl Listener {
    /// Whether the listener is still coming up.
    pub open spec fn is_starting(&self) -> bool {
        self.stage is ParseAddress || self.stage is SetUpTls || self.stage is Bind
            || self.stage is OpenEndpoint
    }

    /// Whether an event can come at this stage.
    pub open spec fn awaits(&self, event: ListenerEvent) -> bool {
        match self.stage {
            ListenerStage::ParseAddress
            | ListenerStage::SetUpTls
            | ListenerStage::Bind
            | ListenerStage::OpenEndpoint => event is Done || event is Failed,
            ListenerStage::Accept => {
                ||| event is Done
                ||| event is Shutdown
                ||| event is Failed && !self.kind.is_quic()
                ||| event is Closed && self.kind.is_quic()
            },
            ListenerStage::Permit => event is Done || event is Closed || (event is Shutdown
                && self.kind.is_supervised()),
            ListenerStage::Pause | ListenerStage::CloseTasks => event is Done,
            ListenerStage::Over => false,
        }
    }

    /// What an event has a listener do.
    pub open spec fn reaction(&self, event: ListenerEvent) -> ListenerReaction {
        match (self.stage, event) {
            (ListenerStage::ParseAddress, ListenerEvent::Failed(reason)) => ListenerReaction::Fail(
                ErrorView::InvalidInput("Invalid bind address: "@ + reason@),
            ),
            (ListenerStage::SetUpTls, ListenerEvent::Failed(reason)) => ListenerReaction::Fail(
                ErrorView::Tls(reason@),
            ),
            (ListenerStage::Bind, ListenerEvent::Failed(reason)) => ListenerReaction::Fail(
                ErrorView::Io(reason@),
            ),
            (ListenerStage::OpenEndpoint, ListenerEvent::Failed(reason)) => ListenerReaction::Fail(
                ErrorView::Setup(reason@),
            ),
            (ListenerStage::Accept, ListenerEvent::Failed(_)) => ListenerReaction::Go(
                if self.kind is Healthcheck {
                    ListenerStage::Accept
                } else {
                    ListenerStage::Pause
                },
            ),
            (ListenerStage::Permit, ListenerEvent::Closed) if self.kind is Doq =>
                ListenerReaction::Fail(ErrorView::Protocol("DoQ listener stopped"@)),
            (_, ListenerEvent::Shutdown) | (_, ListenerEvent::Closed) => ListenerReaction::Stop,
            (ListenerStage::ParseAddress, _) => ListenerReaction::Go(ListenerStage::OpenEndpoint),
            (ListenerStage::SetUpTls, _) => ListenerReaction::Go(
                if self.kind is Dot {
                    ListenerStage::Bind
                } else {
                    ListenerStage::Accept
                },
            ),
            (ListenerStage::Bind, _) => ListenerReaction::Go(
                if self.kind is Doh {
                    ListenerStage::SetUpTls
                } else {
                    ListenerStage::Accept
                },
            ),
            (ListenerStage::OpenEndpoint, _) | (ListenerStage::Pause, _) => ListenerReaction::Go(
                ListenerStage::Accept,
            ),
            (ListenerStage::Accept, _) => ListenerReaction::Go(ListenerStage::Permit),
            (ListenerStage::Permit, _) => ListenerReaction::Spawn,
            _ => ListenerReaction::Go(ListenerStage::Over),
        }
    }

    /// What is reported to whoever waits for the listener to be ready.
    pub open spec fn notice(&self, event: ListenerEvent) -> Notice {
        if !self.is_starting() {
            Notice::Nothing
        } else {
            match event {
                ListenerEvent::Failed(reason) => match self.stage {
                    ListenerStage::ParseAddress => Notice::Nothing,
                    ListenerStage::SetUpTls => if self.kind is Dot {
                        Notice::Failed(
                            ErrorView::Tls(error::message_of(ErrorView::Tls(reason@))),
                        )
                    } else {
                        Notice::Nothing
                    },
                    ListenerStage::Bind => Notice::Failed(ErrorView::Io(reason@)),
                    _ => Notice::Failed(ErrorView::Protocol(reason@)),
                },
                _ => if self.stage == last_setup_stage(self.kind) {
                    Notice::Ready
                } else {
                    Notice::Nothing
                },
            }
        }
    }

    /// Whether an action does what a reaction asks for, and the listener has moved on.
    pub open spec fn obeys(
        &self,
        reaction: ListenerReaction,
        next: Listener,
        action: ListenerAction,
    ) -> bool {
        &&& next.kind == self.kind
        &&& next.backoff == self.backoff || reaction == ListenerReaction::Go(ListenerStage::Pause)
        &&& match reaction {
            ListenerReaction::Go(stage) => {
                &&& next.stage == stage
                &&& match stage {
                    ListenerStage::ParseAddress => action is ParseAddress,
                    ListenerStage::SetUpTls => action is SetUpTls,
                    ListenerStage::Bind => action is Bind,
                    ListenerStage::OpenEndpoint => action is OpenEndpoint,
                    ListenerStage::Accept => action is Accept,
                    ListenerStage::Permit => action is AcquirePermit,
                    ListenerStage::Pause => {
                        &&& action matches ListenerAction::Pause(ms) && ms == backoff::delay_after(
                            self.backoff.failures(),
                            ACCEPT_DELAY_MS as nat,
                            MAX_ACCEPT_DELAY_MS as nat,
                        )
                        &&& next.backoff.failures() == if self.backoff.failures() < u32::MAX {
                            self.backoff.failures() + 1
                        } else {
                            self.backoff.failures()
                        }
                    },
                    ListenerStage::CloseTasks => action == ListenerAction::CloseTasks(
                        TASK_GRACE_SECONDS,
                    ),
                    ListenerStage::Over => action matches ListenerAction::Return(Ok(_)),
                }
            },
            ListenerReaction::Spawn => action is Spawn && next.stage is Accept,
            ListenerReaction::Stop => if self.kind.is_supervised() {
                action == ListenerAction::CloseTasks(TASK_GRACE_SECONDS) && next.stage is CloseTasks
            } else {
                action matches ListenerAction::Return(Ok(_)) && next.stage is Over
            },
            ListenerReaction::Fail(fault) => {
                &&& action matches ListenerAction::Return(Err(error)) && error@ == fault
                &&& next.stage is Over
            },
        }
    }

    /// Whether a report is the given one.
    pub open spec fn reports(notice: Option<DnsProxyResult<()>>, wanted: Notice) -> bool {
        match wanted {
            Notice::Nothing => notice is None,
            Notice::Ready => notice matches Some(Ok(_)),
            Notice::Failed(fault) => notice matches Some(Err(error)) && error@ == fault,
        }
    }

    /// A listener and its first step; one that is not enabled is gone at once. `backoff`
    /// counts on from earlier runs.
    pub fn start(kind: ServerKind, servers: &ServersConfig, backoff: BackoffCounter) -> (r: (
        Listener,
        ListenerAction,
    ))
        ensures
            r.0.kind == kind,
            r.0.backoff == backoff,
            if kind.is_enabled(*servers) {
                &&& r.0.stage == first_stage(kind)
                &&& match first_stage(kind) {
                    ListenerStage::SetUpTls => r.1 is SetUpTls,
                    ListenerStage::ParseAddress => r.1 is ParseAddress,
                    _ => r.1 is Bind,
                }
            } else {
                r.0.stage is Over && (r.1 matches ListenerAction::Return(Ok(_)))
            },
    {
        if !kind.enabled(servers) {
            return (
                Listener { kind, stage: ListenerStage::Over, backoff },
                ListenerAction::Return(Ok(())),
            );
        }
        match kind {
            ServerKind::Dot => (
                Listener { kind, stage: ListenerStage::SetUpTls, backoff },
                ListenerAction::SetUpTls,
            ),
            ServerKind::Doq | ServerKind::Doh3 => (
                Listener { kind, stage: ListenerStage::ParseAddress, backoff },
                ListenerAction::ParseAddress,
            ),
            _ => (Listener { kind, stage: ListenerStage::Bind, backoff }, ListenerAction::Bind),
        }
    }

    /// Fails while coming up.
    fn fail(&mut self, reason: String) -> (r: ListenerStep)
        requires
            old(self).is_starting(),
        ensures
            old(self).obeys(
                old(self).reaction(ListenerEvent::Failed(reason)),
                *final(self),
                r.action,
            ),
            Listener::reports(r.notice, old(self).notice(ListenerEvent::Failed(reason))),
    {
        let stage = self.stage;
        self.stage = ListenerStage::Over;
        match stage {
            ListenerStage::ParseAddress => ListenerStep {
                notice: None,
                action: ListenerAction::Return(
                    Err(
                        DnsProxyError::InvalidInput(
                            text::join("Invalid bind address: ", reason.as_str()),
                        ),
                    ),
                ),
            },
            ListenerStage::SetUpTls => {
                let error = DnsProxyError::Tls(reason);
                let notice = match self.kind {
                    ServerKind::Dot => Some(Err(DnsProxyError::Tls(error.message()))),
                    _ => None,
                };
                ListenerStep { notice, action: ListenerAction::Return(Err(error)) }
            },
            ListenerStage::Bind => ListenerStep {
                notice: Some(Err(DnsProxyError::Io(reason.as_str().to_owned()))),
                action: ListenerAction::Return(Err(DnsProxyError::Io(reason))),
            },
            _ => ListenerStep {
                notice: Some(Err(DnsProxyError::Protocol(reason.as_str().to_owned()))),
                action: ListenerAction::Return(Err(DnsProxyError::Setup(reason))),
            },
        }
    }

    /// Stops accepting connections.
    fn stop(&mut self) -> (r: ListenerAction)
        ensures
            old(self).obeys(ListenerReaction::Stop, *final(self), r),
    {
        match self.kind {
            ServerKind::Dot | ServerKind::Doh => {
                self.stage = ListenerStage::Over;
                ListenerAction::Return(Ok(()))
            },
            _ => {
                self.stage = ListenerStage::CloseTasks;
                ListenerAction::CloseTasks(TASK_GRACE_SECONDS)
            },
        }
    }

    /// Goes on after a step that is done.
    fn advance(&mut self) -> (r: ListenerStep)
        requires
            old(self).awaits(ListenerEvent::Done),
        ensures
            old(self).obeys(old(self).reaction(ListenerEvent::Done), *final(self), r.action),
            Listener::reports(r.notice, old(self).notice(ListenerEvent::Done)),
    {
        match self.stage {
            ListenerStage::ParseAddress => {
                self.stage = ListenerStage::OpenEndpoint;
                ListenerStep { notice: None, action: ListenerAction::OpenEndpoint }
            },
            ListenerStage::SetUpTls => match self.kind {
                ServerKind::Dot => {
                    self.stage = ListenerStage::Bind;
                    ListenerStep { notice: None, action: ListenerAction::Bind }
                },
                ServerKind::Doh => {
                    self.stage = ListenerStage::Accept;
                    ListenerStep { notice: Some(Ok(())), action: ListenerAction::Accept }
                },
                _ => {
                    self.stage = ListenerStage::Accept;
                    ListenerStep { notice: None, action: ListenerAction::Accept }
                },
            },
            ListenerStage::Bind => match self.kind {
                ServerKind::Doh => {
                    self.stage = ListenerStage::SetUpTls;
                    ListenerStep { notice: None, action: ListenerAction::SetUpTls }
                },
                ServerKind::Dot | ServerKind::Healthcheck => {
                    self.stage = ListenerStage::Accept;
                    ListenerStep { notice: Some(Ok(())), action: ListenerAction::Accept }
                },
                _ => {
                    self.stage = ListenerStage::Accept;
                    ListenerStep { notice: None, action: ListenerAction::Accept }
                },
            },
            ListenerStage::OpenEndpoint => {
                let notice = match self.kind {
                    ServerKind::Doq | ServerKind::Doh3 => Some(Ok(())),
                    _ => None,
                };
                self.stage = ListenerStage::Accept;
                ListenerStep { notice, action: ListenerAction::Accept }
            },
            ListenerStage::Pause => {
                self.stage = ListenerStage::Accept;
                ListenerStep { notice: None, action: ListenerAction::Accept }
            },
            ListenerStage::Accept => {
                self.stage = ListenerStage::Permit;
                ListenerStep { notice: None, action: ListenerAction::AcquirePermit }
            },
            ListenerStage::Permit => {
                self.stage = ListenerStage::Accept;
                ListenerStep { notice: None, action: ListenerAction::Spawn }
            },
            _ => {
                self.stage = ListenerStage::Over;
                ListenerStep { notice: None, action: ListenerAction::Return(Ok(())) }
            },
        }
    }

    /// Takes what came of the last step, and tells the next one.
    pub fn step(&mut self, event: ListenerEvent) -> (r: ListenerStep)
        requires
            old(self).awaits(event),
        ensures
            old(self).obeys(old(self).reaction(event), *final(self), r.action),
            Listener::reports(r.notice, old(self).notice(event)),
    {
        match event {
            ListenerEvent::Done => self.advance(),
            ListenerEvent::Shutdown => ListenerStep { notice: None, action: self.stop() },
            ListenerEvent::Closed => match (self.stage, self.kind) {
                (ListenerStage::Permit, ServerKind::Doq) => {
                    self.stage = ListenerStage::Over;
                    ListenerStep {
                        notice: None,
                        action: ListenerAction::Return(
                            Err(DnsProxyError::Protocol("DoQ listener stopped".to_owned())),
                        ),
                    }
                },
                _ => ListenerStep { notice: None, action: self.stop() },
            },
            ListenerEvent::Failed(reason) => match self.stage {
                ListenerStage::Accept => match self.kind {
                    ServerKind::Healthcheck => ListenerStep {
                        notice: None,
                        action: ListenerAction::Accept,
                    },
                    _ => {
                        let delay: u64 = self.backoff.next_delay(
                            ACCEPT_DELAY_MS,
                            MAX_ACCEPT_DELAY_MS,
                        );
                        self.stage = ListenerStage::Pause;
                        ListenerStep { notice: None, action: ListenerAction::Pause(delay) }
                    },
                },
                _ => self.fail(reason),
            },
        }
    }
}

/// A listener reports that it is ready only when its socket is bound and everything
/// else is set up; from then on it reports nothing.
pub proof fn readiness_follows_setup(listener: Listener, event: ListenerEvent)
    requires
        listener.awaits(event),
    ensures
        listener.notice(event) is Ready ==> listener.stage == last_setup_stage(listener.kind)
            && event is Done && listener.reaction(event) == ListenerReaction::Go(
            ListenerStage::Accept,
        ),
        listener.reaction(event) == ListenerReaction::Go(ListenerStage::Accept)
            && listener.is_starting() && listener.stage == last_setup_stage(listener.kind)
            ==> listener.notice(event) is Ready,
        !listener.is_starting() ==> listener.notice(event) is Nothing,
{
}

/// A listener that is told to stop hands over no further connection.
pub proof fn shutdown_ends_a_listener(listener: Listener, next: Listener, action: ListenerAction)
    requires
        listener.awaits(ListenerEvent::Shutdown),
        listener.obeys(listener.reaction(ListenerEvent::Shutdown), next, action),
    ensures
        !(action is Spawn),
        next.stage is CloseTasks || next.stage is Over,
        forall|event: ListenerEvent| #[trigger]
            next.awaits(event) ==> next.reaction(event) == ListenerReaction::Go(
                ListenerStage::Over,
            ),
{
}

/// A listener comes up in the steps of its kind: the healthcheck binds its socket; DoT sets
/// up TLS and binds; DoH binds and sets up TLS; DoQ and DoH3 parse their address and open
/// their endpoint. The last of these makes it ready, and then it accepts connections.
pub proof fn listeners_come_up_in_their_steps(listener: Listener)
    ensures
        first_stage(ServerKind::Healthcheck) is Bind,
        first_stage(ServerKind::Dot) is SetUpTls,
        first_stage(ServerKind::Doh) is Bind,
        first_stage(ServerKind::Doq) is ParseAddress,
        first_stage(ServerKind::Doh3) is ParseAddress,
        ({
            let go = listener.reaction(ListenerEvent::Done);
            let told = listener.notice(ListenerEvent::Done);
            match (listener.kind, listener.stage) {
                (ServerKind::Healthcheck, ListenerStage::Bind) => go == ListenerReaction::Go(
                    ListenerStage::Accept,
                ) && told is Ready,
                (ServerKind::Dot, ListenerStage::SetUpTls) => go == ListenerReaction::Go(
                    ListenerStage::Bind,
                ) && told is Nothing,
                (ServerKind::Dot, ListenerStage::Bind) => go == ListenerReaction::Go(
                    ListenerStage::Accept,
                ) && told is Ready,
                (ServerKind::Doh, ListenerStage::Bind) => go == ListenerReaction::Go(
                    ListenerStage::SetUpTls,
                ) && told is Nothing,
                (ServerKind::Doh, ListenerStage::SetUpTls) => go == ListenerReaction::Go(
                    ListenerStage::Accept,
                ) && told is Ready,
                (ServerKind::Doq, ListenerStage::ParseAddress)
                | (ServerKind::Doh3, ListenerStage::ParseAddress) => go == ListenerReaction::Go(
                    ListenerStage::OpenEndpoint,
                ) && told is Nothing,
                (ServerKind::Doq, ListenerStage::OpenEndpoint)
                | (ServerKind::Doh3, ListenerStage::OpenEndpoint) => go == ListenerReaction::Go(
                    ListenerStage::Accept,
                ) && told is Ready,
                _ => true,
            }
        }),
{
}

/// A listener that serves hands over every connection for which there is room, and awaits
/// the next one. A failure to accept one does not end it: DoT and DoH pause, and the
/// healthcheck goes on at once.
pub proof fn listeners_go_on_serving(listener: Listener, reason: String)
    ensures
        listener.stage is Accept ==> listener.reaction(ListenerEvent::Done) == ListenerReaction::Go(
            ListenerStage::Permit,
        ),
        listener.stage is Permit ==> listener.reaction(ListenerEvent::Done) is Spawn,
        listener.stage is Pause ==> listener.reaction(ListenerEvent::Done) == ListenerReaction::Go(
            ListenerStage::Accept,
        ),
        listener.stage is Accept && (listener.kind is Dot || listener.kind is Doh)
            ==> listener.awaits(ListenerEvent::Failed(reason)) && listener.reaction(
            ListenerEvent::Failed(reason),
        ) == ListenerReaction::Go(ListenerStage::Pause),
        listener.stage is Accept && listener.kind is Healthcheck ==> listener.reaction(
            ListenerEvent::Failed(reason),
        ) == ListenerReaction::Go(ListenerStage::Accept),
        listener.stage is Accept ==> listener.awaits(ListenerEvent::Done) && listener.awaits(
            ListenerEvent::Shutdown,
        ),
        listener.stage is Permit ==> listener.awaits(ListenerEvent::Done),
        listener.stage is Permit && !(listener.kind is Dot) && !(listener.kind is Doh)
            ==> listener.awaits(ListenerEvent::Shutdown),
{
}

/// The pause after a failure to accept a connection is 100 milliseconds at first, doubles
/// with each failure and is never longer than 5000; the failure is counted.
pub proof fn pauses_double_from_100_to_5000_milliseconds(
    listener: Listener,
    next: Listener,
    action: ListenerAction,
)
    requires
        listener.obeys(ListenerReaction::Go(ListenerStage::Pause), next, action),
    ensures
        next.stage is Pause,
        action matches ListenerAction::Pause(ms) && ms == backoff::delay_after(
            listener.backoff.failures(),
            100,
            5000,
        ) && ms <= 5000 && (listener.backoff.failures() == 0 ==> ms == 100),
        listener.backoff.failures() < u32::MAX ==> next.backoff.failures()
            == listener.backoff.failures() + 1,
{
    backoff::each_failure_doubles_the_delay(listener.backoff.failures(), 100, 5000);
}

/// What a listener is told to do next is what its reaction asks for, and it is then at that
/// stage. Told to stop, DoT and DoH are gone at once, and the others close their connections
/// within 10 seconds.
pub proof fn listeners_do_what_is_asked(
    listener: Listener,
    reaction: ListenerReaction,
    next: Listener,
    action: ListenerAction,
)
    requires
        listener.obeys(reaction, next, action),
    ensures
        next.kind == listener.kind,
        reaction is Spawn ==> action is Spawn && next.stage is Accept,
        reaction == ListenerReaction::Go(ListenerStage::Accept) ==> action is Accept
            && next.stage is Accept,
        reaction == ListenerReaction::Go(ListenerStage::Permit) ==> action is AcquirePermit
            && next.stage is Permit,
        reaction == ListenerReaction::Go(ListenerStage::Bind) ==> action is Bind
            && next.stage is Bind,
        reaction == ListenerReaction::Go(ListenerStage::SetUpTls) ==> action is SetUpTls
            && next.stage is SetUpTls,
        reaction == ListenerReaction::Go(ListenerStage::OpenEndpoint) ==> action is OpenEndpoint
            && next.stage is OpenEndpoint,
        reaction == ListenerReaction::Go(ListenerStage::Over) ==> (action matches
            ListenerAction::Return(Ok(_))) && next.stage is Over,
        reaction is Stop && (listener.kind is Dot || listener.kind is Doh) ==> (action matches
            ListenerAction::Return(Ok(_))) && next.stage is Over,
        reaction is Stop && (listener.kind is Doq || listener.kind is Doh3
            || listener.kind is Healthcheck) ==> action == ListenerAction::CloseTasks(10)
            && next.stage is CloseTasks,
        reaction matches ListenerReaction::Fail(fault) ==> (action matches ListenerAction::Return(
            Err(error),
        ) && error@ == fault) && next.stage is Over,
        !(reaction == ListenerReaction::Go(ListenerStage::Pause)) ==> next.backoff
            == listener.backoff,
{
}

/// A listener that fails while it comes up is gone with an error. Whoever waits for it is
/// told of a socket that was not bound, an endpoint that was not opened and of TLS that a DoT
/// listener could not set up.
pub proof fn listeners_that_fail_are_gone(listener: Listener, reason: String)
    requires
        listener.is_starting(),
    ensures
        listener.reaction(ListenerEvent::Failed(reason)) is Fail,
        listener.stage is Bind || listener.stage is OpenEndpoint || (listener.stage is SetUpTls
            && listener.kind is Dot) ==> listener.notice(ListenerEvent::Failed(reason)) is Failed,
        listener.awaits(ListenerEvent::Failed(reason)) && listener.awaits(ListenerEvent::Done),
{
}

/// A configuration has a listener exactly where its own section enables it.
pub proof fn sections_enable_their_listeners(servers: ServersConfig)
    ensures
        ServerKind::Healthcheck.is_enabled(servers) == servers.healthcheck.enabled,
        ServerKind::Dot.is_enabled(servers) == servers.dot.enabled,
        ServerKind::Doh.is_enabled(servers) == servers.doh.enabled,
        ServerKind::Doq.is_enabled(servers) == servers.doq.enabled,
        ServerKind::Doh3.is_enabled(servers) == servers.doh3.enabled,
{
}

/// The protocols that listeners offer, octet by octet: `dot` for DoT, `h2` before `http/1.1`
/// for DoH, `doq` for DoQ, `h3` for DoH3, and none for the healthcheck.
pub proof fn offered_protocols_by_octet()
    ensures
        offered_protocols(ServerKind::Healthcheck).len() == 0,
        offered_protocols(ServerKind::Dot) == seq![seq![100u8, 111, 116]],
        offered_protocols(ServerKind::Doh) == seq![
            seq![104u8, 50],
            seq![104u8, 116, 116, 112, 47, 49, 46, 49],
        ],
        offered_protocols(ServerKind::Doq) == seq![seq![100u8, 111, 113]],
        offered_protocols(ServerKind::Doh3) == seq![seq![104u8, 51]],
{
    reveal_strlit("dot");
    reveal_strlit("h2");
    reveal_strlit("http/1.1");
    vstd::utf8::is_ascii_chars_encode_utf8("dot"@);
    vstd::utf8::is_ascii_chars_encode_utf8("h2"@);
    vstd::utf8::is_ascii_chars_encode_utf8("http/1.1"@);
    assert(vstd::utf8::encode_utf8("dot"@) == seq![100u8, 111, 116]);
    assert(vstd::utf8::encode_utf8("h2"@) == seq![104u8, 50]);
    assert(vstd::utf8::encode_utf8("http/1.1"@) == seq![104u8, 116, 116, 112, 47, 49, 46, 49]);
    assert(QuicApplication::Doq.alpn_bytes() == seq![100u8, 111, 113]);
    assert(QuicApplication::H3.alpn_bytes() == seq![104u8, 51]);
}

/// A listener that is told to stop does, whatever its kind, and so does one for which no more
/// connections come; only DoQ counts it as a fault where no more can be handled. Once its
/// connections are closed, a listener is gone without an error.
pub proof fn listeners_stop_when_told(listener: Listener)
    ensures
        listener.reaction(ListenerEvent::Shutdown) is Stop,
        listener.stage is Accept ==> listener.reaction(ListenerEvent::Closed) is Stop,
        listener.stage is Permit && !(listener.kind is Doq) ==> listener.reaction(
            ListenerEvent::Closed,
        ) is Stop,
        listener.stage is Permit && listener.kind is Doq ==> listener.reaction(
            ListenerEvent::Closed,
        ) is Fail,
        listener.stage is CloseTasks ==> listener.reaction(ListenerEvent::Done)
            == ListenerReaction::Go(ListenerStage::Over),
        listener.stage is CloseTasks || listener.stage is Pause ==> listener.awaits(
            ListenerEvent::Done,
        ),
{
}

/// The kind of an error tells which step of a start failed, with the system's words: the
/// address, TLS, the socket or the endpoint. Whoever waits is told of a socket in the same
/// way, and of an endpoint as a protocol error.
pub proof fn faults_are_of_their_kind(listener: Listener, reason: String)
    ensures
        ({
            let failed = ListenerEvent::Failed(reason);
            &&& listener.stage is ParseAddress ==> (listener.reaction(failed) matches
                ListenerReaction::Fail(ErrorView::InvalidInput(told)) && text::ends_with(
                told,
                reason@,
            ))
            &&& listener.stage is SetUpTls ==> listener.reaction(failed) == ListenerReaction::Fail(
                ErrorView::Tls(reason@),
            )
            &&& listener.stage is Bind ==> listener.reaction(failed) == ListenerReaction::Fail(
                ErrorView::Io(reason@),
            ) && listener.notice(failed) == Notice::Failed(ErrorView::Io(reason@))
            &&& listener.stage is OpenEndpoint ==> listener.reaction(failed)
                == ListenerReaction::Fail(ErrorView::Setup(reason@)) && listener.notice(failed)
                == Notice::Failed(ErrorView::Protocol(reason@))
        }),
{
    text::ends_and_beginnings("Invalid bind address: "@, reason@, ' ');
}

/// A report is the wanted one where there is none and none is wanted, or it tells of
/// readiness, or of the very fault.
pub proof fn reports_are_what_is_wanted(notice: Option<DnsProxyResult<()>>, fault: ErrorView)
    ensures
        Listener::reports(notice, Notice::Nothing) <==> notice is None,
        Listener::reports(notice, Notice::Ready) <==> (notice matches Some(Ok(_))),
        Listener::reports(notice, Notice::Failed(fault)) <==> (notice matches Some(Err(error))
            && error@ == fault),
{
}

} // verus!
