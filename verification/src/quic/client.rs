//! The client side of QUIC.
use vstd::prelude::*;

verus! {

/// The local address from which an upstream of the given family is reached.
pub open spec fn client_bind_text(is_ipv4: bool) -> Seq<char> {
    if is_ipv4 {
        "0.0.0.0:0"@
    } else {
        "[::]:0"@
    }
}

/// The local address from which an upstream of the given family is reached.
pub fn client_bind_address(is_ipv4: bool) -> (r: &'static str)
    ensures
        r@ == client_bind_text(is_ipv4),
{
    if is_ipv4 {
        "0.0.0.0:0"
    } else {
        "[::]:0"
    }
}

} // verus!
