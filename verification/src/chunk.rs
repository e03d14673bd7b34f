//! Trusted view of `bytes::Bytes`, the chunk buffer handed out by the
//! HTTP transport.
//!
//! A chunk is opaque to the verifier; `chunk_bytes` names the byte
//! sequence it holds, and the wrappers below relate the few operations the
//! state machine needs to that sequence.

use vstd::prelude::*;

verus! {

/// The byte sequence a `bytes::Bytes` buffer holds.
pub uninterp spec fn chunk_bytes(b: bytes::Bytes) -> Seq<u8>;

#[verifier::external_type_specification]
#[verifier::external_body]
pub struct ExBytes(bytes::Bytes);

/// Relies on `bytes::Bytes::len`: the number of bytes the buffer holds.
#[verifier::external_body]
pub fn chunk_len(b: &bytes::Bytes) -> (r: usize)
    ensures
        r == chunk_bytes(*b).len(),
{
    b.len()
}

/// Relies on `bytes::Bytes::slice`: the sub-buffer holding bytes
/// `[start, end)` of `b`.
#[verifier::external_body]
pub fn chunk_slice(b: &bytes::Bytes, start: usize, end: usize) -> (r: bytes::Bytes)
    requires
        start <= end <= chunk_bytes(*b).len(),
    ensures
        chunk_bytes(r) == chunk_bytes(*b).subrange(start as int, end as int),
{
    b.slice(start..end)
}

/// Relies on `<[u8]>::to_vec` reached through `Bytes`'s `Deref` to `[u8]`:
/// the buffer copied out as a plain vector.
#[verifier::external_body]
pub fn chunk_to_vec(b: &bytes::Bytes) -> (r: Vec<u8>)
    ensures
        r@ == chunk_bytes(*b),
{
    b.to_vec()
}

} // verus!
