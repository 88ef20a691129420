//! The application protocols over QUIC.
use vstd::prelude::*;

verus! {

/// ALPN values registered by the applicable DNS transports.
///
/// A QUIC listener serves one application protocol only: accepting a DoQ connection as
/// HTTP/3 (or the inverse) would make the first stream undecodable.
#[derive(Debug, Clone, Copy, PartialEq, Eq, Hash, Structural)]
pub enum QuicApplication {
    Doq,
    H3,
}

impl QuicApplication {
    /// The name of the protocol in the TLS handshake: `doq` or `h3` in ASCII.
    pub open spec fn alpn_bytes(self) -> Seq<u8> {
        match self {
            QuicApplication::Doq => seq![0x64u8, 0x6f, 0x71],
            QuicApplication::H3 => seq![0x68u8, 0x33],
        }
    }

    /// The ALPN value.
    pub fn alpn(self) -> (r: &'static [u8])
        ensures
            r@ == self.alpn_bytes(),
    {
        proof {
            reveal_strlit("doq");
            reveal_strlit("h3");
            vstd::utf8::is_ascii_chars_encode_utf8("doq"@);
            vstd::utf8::is_ascii_chars_encode_utf8("h3"@);
        }
        match self {
            QuicApplication::Doq => "doq".as_bytes(),
            QuicApplication::H3 => "h3".as_bytes(),
        }
    }
}

/// Different applications have different ALPN values, so that a handshake for one is
/// never taken for the other.
pub proof fn applications_are_told_apart(a: QuicApplication, b: QuicApplication)
    requires
        a != b,
    ensures
        a.alpn_bytes() != b.alpn_bytes(),
{
    assert(a.alpn_bytes().len() != b.alpn_bytes().len());
}

} // verus!
