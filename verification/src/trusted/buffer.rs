//! Byte buffers, as the `bytes` crate holds them.

use bytes::{Bytes, BytesMut};
use vstd::prelude::*;

verus! {

#[verifier::external_type_specification]
#[verifier::external_body]
pub struct ExBytes(Bytes);

#[verifier::external_type_specification]
#[verifier::external_body]
pub struct ExBytesMut(BytesMut);

/// The bytes that a `Bytes` holds, first to last.
pub uninterp spec fn bytes_content(bytes: Bytes) -> Seq<u8>;

/// The bytes that a `BytesMut` holds, first to last.
pub uninterp spec fn buffer_content(buffer: BytesMut) -> Seq<u8>;

/// `Bytes::new`: a `Bytes` that holds nothing.
#[verifier::external_body]
pub(crate) fn empty_bytes() -> (bytes: Bytes)
    ensures
        bytes_content(bytes) == Seq::<u8>::empty(),
{
    Bytes::new()
}

/// `Bytes::copy_from_slice`: a `Bytes` that holds a copy of `data`.
#[verifier::external_body]
pub(crate) fn copy_from_slice(data: &[u8]) -> (bytes: Bytes)
    ensures
        bytes_content(bytes) == data@,
{
    Bytes::copy_from_slice(data)
}

/// `Bytes::as_ref`: the bytes held, as a slice.
#[verifier::external_body]
pub(crate) fn as_slice(bytes: &Bytes) -> (slice: &[u8])
    ensures
        slice@ == bytes_content(*bytes),
{
    bytes.as_ref()
}

/// `BytesMut::new`: a buffer that holds nothing.
#[verifier::external_body]
pub(crate) fn empty_buffer() -> (buffer: BytesMut)
    ensures
        buffer_content(buffer) == Seq::<u8>::empty(),
{
    BytesMut::new()
}

/// `BytesMut::len`: the number of bytes held.
#[verifier::external_body]
pub(crate) fn buffer_len(buffer: &BytesMut) -> (len: usize)
    ensures
        len == buffer_content(*buffer).len(),
{
    buffer.len()
}

/// `BytesMut::extend_from_slice`: appends `extend` to what the buffer holds.
/// The crate panics where the new length overflows `usize`, so that is not
/// asked of it.
#[verifier::external_body]
pub(crate) fn extend_from_slice(buffer: &mut BytesMut, extend: &[u8])
    requires
        buffer_content(*old(buffer)).len() + extend@.len() <= usize::MAX,
    ensures
        buffer_content(*final(buffer)) == buffer_content(*old(buffer)) + extend@,
{
    buffer.extend_from_slice(extend)
}

/// `BytesMut::freeze`: the same bytes, no longer changeable.
#[verifier::external_body]
pub(crate) fn freeze(buffer: BytesMut) -> (bytes: Bytes)
    ensures
        bytes_content(bytes) == buffer_content(buffer),
{
    buffer.freeze()
}

} // verus!
