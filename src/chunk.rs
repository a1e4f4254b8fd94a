//! Chunks: the reference-counted byte buffers that travel through the channel.
use vstd::prelude::*;

verus! {

#[verifier::external_type_specification]
#[verifier::external_body]
pub struct ExBytes(bytes::Bytes);

/// The bytes that a chunk holds, in order.
pub uninterp spec fn chunk_bytes(b: bytes::Bytes) -> Seq<u8>;

/// Relies on `bytes::Bytes::copy_from_slice`: a new buffer holding a copy of `data`.
#[verifier::external_body]
pub(crate) fn chunk_from_slice(data: &[u8]) -> (r: bytes::Bytes)
    ensures
        chunk_bytes(r) == data@,
{
    bytes::Bytes::copy_from_slice(data)
}

/// Relies on `From<Vec<u8>> for bytes::Bytes`: the buffer takes over the vector's bytes.
#[verifier::external_body]
pub(crate) fn chunk_from_vec(v: Vec<u8>) -> (r: bytes::Bytes)
    ensures
        chunk_bytes(r) == v@,
{
    bytes::Bytes::from(v)
}

/// Relies on `From<bytes::Bytes> for Vec<u8>`: a vector of the same bytes.
#[verifier::external_body]
pub(crate) fn chunk_into_vec(b: bytes::Bytes) -> (r: Vec<u8>)
    ensures
        r@ == chunk_bytes(b),
{
    Vec::from(b)
}

} // verus!
