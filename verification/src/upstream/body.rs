//! The body of a response, read part by part.
use crate::octets;
use crate::proxy::request::MAX_DNS_MESSAGE_SIZE;
use crate::text;
use vstd::prelude::*;

verus! {

/// What came of the last attempt to read.
#[derive(Debug, Clone)]
pub enum BodyEvent {
    /// Nothing came in time.
    TimedOut,
    /// Reading failed, with the transport's words.
    Failed(String),
    /// A part came.
    Chunk(Vec<u8>),
}

/// What has been read so far.
#[derive(Debug, Clone)]
pub struct BodyReader {
    /// What is being read, for messages.
    pub label: String,
    pub bytes: Vec<u8>,
}

impl BodyReader {
    /// Why reading ends with an event, if it does.
    pub open spec fn fault(&self, event: BodyEvent) -> Option<Seq<char>> {
        match event {
            BodyEvent::TimedOut => Some(self.label@ + " timed out"@),
            BodyEvent::Failed(reason) => Some(self.label@ + " could not be read: "@ + reason@),
            BodyEvent::Chunk(part) => if self.bytes@.len() + part@.len() > MAX_DNS_MESSAGE_SIZE {
                Some(self.label@ + " exceeds the DNS message limit"@)
            } else {
                None
            },
        }
    }

    /// A body of which nothing has been read.
    pub fn new(label: String) -> (r: Self)
        ensures
            r.label == label,
            r.bytes@ == Seq::<u8>::empty(),
    {
        BodyReader { label, bytes: Vec::new() }
    }

    /// Takes what came, and tells whether to go on: a body may take as long as it makes
    /// progress, but not grow beyond a DNS message.
    pub fn receive(&mut self, event: BodyEvent) -> (r: Result<(), String>)
        ensures
            final(self).label == old(self).label,
            match old(self).fault(event) {
                Some(fault) => {
                    &&& r matches Err(message) && message@ == fault
                    &&& final(self).bytes == old(self).bytes
                },
                None => {
                    &&& r is Ok
                    &&& event matches BodyEvent::Chunk(part) && final(self).bytes@
                        == old(self).bytes@ + part@
                },
            },
            old(self).bytes@.len() <= MAX_DNS_MESSAGE_SIZE ==> final(self).bytes@.len()
                <= MAX_DNS_MESSAGE_SIZE,
    {
        match event {
            BodyEvent::TimedOut => Err(text::join(self.label.as_str(), " timed out")),
            BodyEvent::Failed(reason) => Err(
                text::join3(self.label.as_str(), " could not be read: ", reason.as_str()),
            ),
            BodyEvent::Chunk(part) => {
                if self.bytes.len().saturating_add(part.len()) > MAX_DNS_MESSAGE_SIZE {
                    return Err(text::join(self.label.as_str(), " exceeds the DNS message limit"));
                }
                octets::append(&mut self.bytes, part.as_slice());
                Ok(())
            },
        }
    }
}

/// How the body of a response is called in messages.
pub fn response_label(upstream_uri: &str) -> (r: String)
    ensures
        r@ == "Upstream response body for "@ + upstream_uri@,
{
    text::join("Upstream response body for ", upstream_uri)
}

/// A part of a body is taken exactly where all that was read has no more than 65535 octets
/// with it; a read that fails or takes too long ends the body.
pub proof fn bodies_grow_to_65535_octets(reader: BodyReader, part: Vec<u8>, reason: String)
    ensures
        reader.fault(BodyEvent::Chunk(part)) is None <==> reader.bytes@.len() + part@.len()
            <= 65535,
        reader.fault(BodyEvent::TimedOut) is Some,
        reader.fault(BodyEvent::Failed(reason)) is Some,
{
}

} // verus!
