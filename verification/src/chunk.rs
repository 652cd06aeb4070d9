//! The pieces of a response body, as the transport hands them over.

use vstd::prelude::*;
use bytes::Bytes;

verus! {

#[verifier::external_type_specification]
#[verifier::external_body]
pub struct ExBytes(Bytes);

/// The bytes that a chunk holds, in order.
pub uninterp spec fn chunk_bytes(chunk: Bytes) -> Seq<u8>;

/// `bytes::Bytes::len`: the number of bytes that the chunk holds.
#[verifier::external_body]
pub(crate) fn chunk_len(chunk: &Bytes) -> (len: usize)
    ensures
        len == chunk_bytes(*chunk).len(),
{
    chunk.len()
}

} // verus!
