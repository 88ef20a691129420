//! The life of a QUIC connection: how it accepts the streams of its client.
use crate::error;
use crate::error::{DnsProxyError, DnsProxyResult, ErrorView};
use crate::quic::config::QuicApplication;
use crate::text;
use vstd::prelude::*;

verus! {

/// How far a connection has come.
#[derive(Debug, Clone, Copy, PartialEq, Eq, Structural)]
pub enum StreamStage {
    /// The HTTP/3 control streams are being set up.
    SetUp,
    /// A stream is awaited.
    Accept,
    /// Room for a stream is awaited.
    Permit,
    /// The connection is done.
    Over,
}

/// What came of the last step.
#[derive(Debug, Clone)]
pub enum StreamEvent {
    /// The step is done.
    Done,
    /// The time for the step ran out.
    TimedOut,
    /// The step failed, with the transport's words.
    Failed(String),
    /// The listener is being shut down.
    Shutdown,
    /// No more streams will come, or no more can be handled.
    Closed,
}

/// What is to be done next.
#[derive(Debug)]
pub enum StreamAction {
    /// Await a stream.
    Accept,
    /// Await room for the stream that was accepted.
    AcquirePermit,
    /// Hand the stream to a task of its own, and await the next one.
    Spawn,
    /// The connection is done.
    Return(DnsProxyResult<()>),
}

/// A connection.
#[derive(Debug, Clone, Copy)]
pub struct StreamLoop {
    pub application: QuicApplication,
    pub stage: StreamStage,
}

/// What an event has a connection do.
#[verifier::ext_equal]
pub enum StreamReaction {
    Accept,
    AcquirePermit,
    Spawn,
    Stop,
    Fail(ErrorView),
}

impl StreamLoop {
    /// Whether an event can come at this stage.
    pub open spec fn awaits(&self, event: StreamEvent) -> bool {
        match self.stage {
            StreamStage::SetUp => event is Done || event is TimedOut || event is Failed,
            StreamStage::Accept => event is Done || event is Failed || event is Shutdown
                || event is Closed,
            StreamStage::Permit => event is Done || event is Shutdown || event is Closed,
            StreamStage::Over => false,
        }
    }

    /// What an event has a connection do.
    pub open spec fn reaction(&self, event: StreamEvent) -> StreamReaction {
        match event {
            StreamEvent::Shutdown => StreamReaction::Stop,
            StreamEvent::TimedOut => StreamReaction::Fail(
                ErrorView::Timeout { upstream: "DoH3 client control stream"@ },
            ),
            StreamEvent::Failed(reason) => if self.stage is SetUp {
                StreamReaction::Fail(
                    ErrorView::Protocol("Failed to create H3 connection: "@ + reason@),
                )
            } else {
                StreamReaction::Stop
            },
            StreamEvent::Closed => if self.stage is Permit && self.application is Doq {
                StreamReaction::Fail(ErrorView::Protocol("DoQ connection stopped"@))
            } else {
                StreamReaction::Stop
            },
            StreamEvent::Done => match self.stage {
                StreamStage::SetUp => StreamReaction::Accept,
                StreamStage::Accept => StreamReaction::AcquirePermit,
                _ => StreamReaction::Spawn,
            },
        }
    }

    /// Whether an action does what a reaction asks for, and the connection has moved on.
    pub open spec fn obeys(&self, reaction: StreamReaction, next: StreamLoop, action: StreamAction)
        -> bool {
        &&& next.application == self.application
        &&& match reaction {
            StreamReaction::Accept => action is Accept && next.stage is Accept,
            StreamReaction::AcquirePermit => action is AcquirePermit && next.stage is Permit,
            StreamReaction::Spawn => action is Spawn && next.stage is Accept,
            StreamReaction::Stop => action matches StreamAction::Return(Ok(_)) && next.stage is Over,
            StreamReaction::Fail(fault) => {
                &&& action matches StreamAction::Return(Err(error)) && error@ == fault
                &&& next.stage is Over
            },
        }
    }

    /// A connection after its handshake.
    pub fn new(application: QuicApplication) -> (r: Self)
        ensures
            r.application == application,
            r.stage == match application {
                QuicApplication::Doq => StreamStage::Accept,
                QuicApplication::H3 => StreamStage::SetUp,
            },
    {
        let stage = match application {
            QuicApplication::Doq => StreamStage::Accept,
            QuicApplication::H3 => StreamStage::SetUp,
        };
        StreamLoop { application, stage }
    }

    /// Takes what came of the last step, and tells the next one.
    pub fn step(&mut self, event: StreamEvent) -> (r: StreamAction)
        requires
            old(self).awaits(event),
        ensures
            old(self).obeys(old(self).reaction(event), *final(self), r),
    {
        match event {
            StreamEvent::Done => match self.stage {
                StreamStage::SetUp => {
                    self.stage = StreamStage::Accept;
                    StreamAction::Accept
                },
                StreamStage::Accept => {
                    self.stage = StreamStage::Permit;
                    StreamAction::AcquirePermit
                },
                _ => {
                    self.stage = StreamStage::Accept;
                    StreamAction::Spawn
                },
            },
            StreamEvent::Shutdown => {
                self.stage = StreamStage::Over;
                StreamAction::Return(Ok(()))
            },
            StreamEvent::TimedOut => {
                self.stage = StreamStage::Over;
                StreamAction::Return(Err(error::timeout("DoH3 client control stream")))
            },
            StreamEvent::Failed(reason) => {
                let stage = self.stage;
                self.stage = StreamStage::Over;
                match stage {
                    StreamStage::SetUp => StreamAction::Return(
                        Err(
                            DnsProxyError::Protocol(
                                text::join("Failed to create H3 connection: ", reason.as_str()),
                            ),
                        ),
                    ),
                    _ => StreamAction::Return(Ok(())),
                }
            },
            StreamEvent::Closed => {
                let stage = self.stage;
                self.stage = StreamStage::Over;
                match (stage, self.application) {
                    (StreamStage::Permit, QuicApplication::Doq) => StreamAction::Return(
                        Err(DnsProxyError::Protocol("DoQ connection stopped".to_owned())),
                    ),
                    _ => StreamAction::Return(Ok(())),
                }
            },
        }
    }
}

/// The server name that a client sent, where the protocol cannot do without one.
pub fn required_server_name(server_name: Option<&str>, complaint: &str) -> (r: DnsProxyResult<
    String,
>)
    ensures
        match server_name {
            Some(name) => r matches Ok(found) && found@ == name@,
            None => r matches Err(error) && error@ == ErrorView::InvalidInput(complaint@),
        },
{
    match server_name {
        Some(name) => Ok(name.to_owned()),
        None => Err(DnsProxyError::InvalidInput(complaint.to_owned())),
    }
}

/// A connection accepts one stream after the other and hands over each for which there is
/// room; it ends without an error where the client is gone or the listener stops, and with
/// one where HTTP/3 could not be set up in time or at all.
pub proof fn connections_hand_over_their_streams(connection: StreamLoop, reason: String)
    ensures
        connection.stage is SetUp ==> connection.reaction(StreamEvent::Done) is Accept
            && connection.reaction(StreamEvent::TimedOut) is Fail && connection.reaction(
            StreamEvent::Failed(reason),
        ) is Fail,
        connection.stage is Accept ==> connection.reaction(StreamEvent::Done) is AcquirePermit
            && connection.reaction(StreamEvent::Failed(reason)) is Stop && connection.reaction(
            StreamEvent::Closed,
        ) is Stop,
        connection.stage is Permit ==> connection.reaction(StreamEvent::Done) is Spawn,
        connection.reaction(StreamEvent::Shutdown) is Stop,
        connection.stage is Accept ==> connection.awaits(StreamEvent::Done) && connection.awaits(
            StreamEvent::Shutdown,
        ) && connection.awaits(StreamEvent::Closed) && connection.awaits(
            StreamEvent::Failed(reason),
        ),
        connection.stage is Permit ==> connection.awaits(StreamEvent::Done) && connection.awaits(
            StreamEvent::Shutdown,
        ) && connection.awaits(StreamEvent::Closed),
{
}

/// A connection does what its reaction asks for, and after each stream that it hands over it
/// awaits the next one.
pub proof fn connections_do_what_is_asked(
    connection: StreamLoop,
    reaction: StreamReaction,
    next: StreamLoop,
    action: StreamAction,
)
    requires
        connection.obeys(reaction, next, action),
    ensures
        next.application == connection.application,
        reaction is Accept ==> action is Accept && next.stage is Accept,
        reaction is AcquirePermit ==> action is AcquirePermit && next.stage is Permit,
        reaction is Spawn ==> action is Spawn && next.stage is Accept,
        reaction is Stop ==> (action matches StreamAction::Return(Ok(_))) && next.stage is Over,
        reaction matches StreamReaction::Fail(fault) ==> (action matches StreamAction::Return(
            Err(error),
        ) && error@ == fault) && next.stage is Over,
{
}

/// A connection for which there is no room any more ends: DoQ with an error, HTTP/3 without.
pub proof fn connections_without_room_end(connection: StreamLoop)
    requires
        connection.stage is Permit,
    ensures
        connection.application is Doq ==> connection.reaction(StreamEvent::Closed) is Fail,
        connection.application is H3 ==> connection.reaction(StreamEvent::Closed) is Stop,
{
}

/// The kind of an error tells what went wrong while HTTP/3 was set up: a timeout, or a
/// protocol error with the transport's words.
pub proof fn faults_are_of_their_kind(connection: StreamLoop, reason: String)
    requires
        connection.stage is SetUp,
    ensures
        connection.reaction(StreamEvent::TimedOut) matches StreamReaction::Fail(fault)
            && fault is Timeout,
        connection.reaction(StreamEvent::Failed(reason)) matches StreamReaction::Fail(
            ErrorView::Protocol(told),
        ) && text::ends_with(told, reason@),
{
    text::ends_and_beginnings("Failed to create H3 connection: "@, reason@, ' ');
}

} // verus!
