//! Payload buffers.
//!
//! Call payloads ride in `bytes::Bytes`, the transport's reference-counted
//! byte buffer. The type is opaque to the verifier; `bytes_view` names the
//! byte sequence a buffer holds, and the wrappers below state what the few
//! operations the engine needs do to that sequence.

use vstd::prelude::*;

verus! {

#[verifier::external_type_specification]
#[verifier::external_body]
pub struct ExBytes(bytes::Bytes);

/// The sequence of bytes a `bytes::Bytes` buffer holds.
pub uninterp spec fn bytes_view(b: bytes::Bytes) -> Seq<u8>;

/// Relies on `<bytes::Bytes as From<Vec<u8>>>::from`: the buffer holds
/// exactly the vector's bytes.
#[verifier::external_body]
pub fn bytes_from_vec(v: Vec<u8>) -> (r: bytes::Bytes)
    ensures
        bytes_view(r) == v@,
{
    bytes::Bytes::from(v)
}

/// Relies on `bytes::Bytes::len`: the number of bytes the buffer holds.
#[verifier::external_body]
pub fn bytes_len(b: &bytes::Bytes) -> (r: usize)
    ensures
        r == bytes_view(*b).len(),
{
    b.len()
}

/// Relies on `<bytes::Bytes as Deref>::deref`: a view of the buffer's bytes
/// as a slice, unchanged.
#[verifier::external_body]
pub fn bytes_as_slice(b: &bytes::Bytes) -> (r: &[u8])
    ensures
        r@ == bytes_view(*b),
{
    b.as_ref()
}

} // verus!
