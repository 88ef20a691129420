//! Sequences of bytes.
use vstd::prelude::*;

verus! {

/// The bytes that were read, or why they were not.
pub open spec fn read_view(read: Result<Vec<u8>, String>) -> Result<Seq<u8>, Seq<char>> {
    match read {
        Ok(bytes) => Ok(bytes@),
        Err(reason) => Err(reason@),
    }
}

/// Some byte strings.
pub open spec fn all(strings: Seq<Vec<u8>>) -> Seq<Seq<u8>> {
    Seq::new(strings.len(), |i: int| strings[i]@)
}

/// A copy of some bytes.
pub fn copy_of(bytes: &[u8]) -> (r: Vec<u8>)
    ensures
        r@ == bytes@,
{
    let mut r: Vec<u8> = Vec::new();
    append(&mut r, bytes);
    assert(r@ == bytes@);
    r
}

/// Puts some bytes behind others.
pub fn append(to: &mut Vec<u8>, bytes: &[u8])
    ensures
        final(to)@ == old(to)@ + bytes@,
{
    to.extend_from_slice(bytes);
}

/// Byte strings are taken one by one, in their order, and what was read as it is.
pub proof fn strings_keep_their_order(strings: Seq<Vec<u8>>, i: int, bytes: Vec<u8>, reason: String)
    ensures
        all(strings).len() == strings.len(),
        0 <= i < strings.len() ==> all(strings)[i] == strings[i]@,
        read_view(Ok(bytes)) == Ok::<Seq<u8>, Seq<char>>(bytes@),
        read_view(Err(reason)) == Err::<Seq<u8>, Seq<char>>(reason@),
{
}

} // verus!
