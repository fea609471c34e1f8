//! Byte buffers in which packets are assembled.
//!
//! Packets are built in a `bytes::BytesMut` and handed out as `bytes::Bytes`.
//! Neither type is verified here: each function of this module that calls
//! the `bytes` crate states what the call does, and is believed without
//! proof.

use bytes::BufMut;
use bytes::Bytes;
use bytes::BytesMut;
use vstd::prelude::*;

verus! {

/// `bytes::Bytes`, an immutable byte string, opaque to the verifier.
#[verifier::external_type_specification]
#[verifier::external_body]
pub struct ExBytes(bytes::Bytes);

/// `bytes::BytesMut`, a growable byte buffer, opaque to the verifier.
#[verifier::external_type_specification]
#[verifier::external_body]
pub struct ExBytesMut(bytes::BytesMut);

/// The bytes that a `Bytes` holds, first to last.
pub uninterp spec fn packet_bytes(packet: Bytes) -> Seq<u8>;

/// The bytes written to a `BytesMut` so far, first to last.
pub uninterp spec fn buffer_bytes(buffer: BytesMut) -> Seq<u8>;

/// The two bytes of `n`, most significant first.
pub open spec fn be_bytes(n: u16) -> Seq<u8> {
    seq![(n / 0x100) as u8, (n % 0x100) as u8]
}

/// The two bytes of a number give the number back: the first counts 256s.
pub proof fn lemma_be_bytes_value(n: u16)
    ensures
        be_bytes(n).len() == 2,
        be_bytes(n)[0] * 256 + be_bytes(n)[1] == n,
{
}

/// The byte strings that a list of packets holds, in order.
pub open spec fn packets_bytes(packets: Seq<Bytes>) -> Seq<Seq<u8>> {
    packets.map_values(|packet: Bytes| packet_bytes(packet))
}

/// `BytesMut::new`: the buffer it returns holds no bytes.
#[verifier::external_body]
pub(crate) fn buffer_new() -> (buffer: BytesMut)
    ensures
        buffer_bytes(buffer) == Seq::<u8>::empty(),
{
    BytesMut::new()
}

/// `BytesMut::with_capacity`: the buffer it returns holds no bytes, whatever
/// room it has. The call panics on a capacity that no allocation can have,
/// which the precondition excludes.
#[verifier::external_body]
pub(crate) fn buffer_with_capacity(capacity: usize) -> (buffer: BytesMut)
    requires
        capacity <= isize::MAX,
    ensures
        buffer_bytes(buffer) == Seq::<u8>::empty(),
{
    BytesMut::with_capacity(capacity)
}

/// `BufMut::put_u8` on a `BytesMut`: appends the byte `n`. The call panics
/// when the buffer cannot grow by one byte, which the precondition excludes.
#[verifier::external_body]
pub(crate) fn put_u8(buffer: &mut BytesMut, n: u8)
    requires
        buffer_bytes(*old(buffer)).len() + 1 <= isize::MAX,
    ensures
        buffer_bytes(*final(buffer)) == buffer_bytes(*old(buffer)).push(n),
{
    buffer.put_u8(n)
}

/// `BufMut::put_u16` on a `BytesMut`: appends the two bytes of `n` in
/// big-endian order. The call panics when the buffer cannot grow by two
/// bytes, which the precondition excludes.
#[verifier::external_body]
pub(crate) fn put_u16(buffer: &mut BytesMut, n: u16)
    requires
        buffer_bytes(*old(buffer)).len() + 2 <= isize::MAX,
    ensures
        buffer_bytes(*final(buffer)) == buffer_bytes(*old(buffer)) + be_bytes(n),
{
    buffer.put_u16(n)
}

/// `BufMut::put_slice` on a `BytesMut`: appends the bytes of `src` in order.
/// The call panics when the buffer cannot grow by the length of `src`, which
/// the precondition excludes.
#[verifier::external_body]
pub(crate) fn put_slice(buffer: &mut BytesMut, src: &[u8])
    requires
        buffer_bytes(*old(buffer)).len() + src@.len() <= isize::MAX,
    ensures
        buffer_bytes(*final(buffer)) == buffer_bytes(*old(buffer)) + src@,
{
    buffer.put_slice(src)
}

/// `BytesMut::freeze`: the `Bytes` holds what was written to the buffer.
#[verifier::external_body]
pub(crate) fn freeze(buffer: BytesMut) -> (packet: Bytes)
    ensures
        packet_bytes(packet) == buffer_bytes(buffer),
{
    buffer.freeze()
}

/// `Bytes::copy_from_slice`: the `Bytes` holds a copy of `data`.
#[verifier::external_body]
pub(crate) fn copy_from_slice(data: &[u8]) -> (packet: Bytes)
    ensures
        packet_bytes(packet) == data@,
{
    Bytes::copy_from_slice(data)
}

/// `Deref::deref` on a `Bytes`: the slice is what the `Bytes` holds.
#[verifier::external_body]
pub(crate) fn as_slice(packet: &Bytes) -> (data: &[u8])
    ensures
        data@ == packet_bytes(*packet),
{
    std::ops::Deref::deref(packet)
}

} // verus!
