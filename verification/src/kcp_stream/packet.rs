//! Datagrams as byte buffers of the `bytes` crate.
use bytes::BytesMut;
use vstd::prelude::*;

verus! {

/// `bytes::BytesMut`, a growable byte buffer. Nothing of its inside is visible
/// here; [`contents`] stands for the bytes that it holds.
#[verifier::external_type_specification]
#[verifier::external_body]
pub struct ExBytesMut(BytesMut);

/// The bytes that a buffer holds, first to last.
pub uninterp spec fn contents(packet: BytesMut) -> Seq<u8>;

/// Calls `BytesMut::len`: the number of bytes that the buffer holds.
#[verifier::external_body]
pub(crate) fn packet_len(packet: &BytesMut) -> (len: usize)
    ensures
        len == contents(*packet).len(),
{
    packet.len()
}

/// Calls `<BytesMut as From<&[u8]>>::from`: a new buffer that holds a copy of
/// `datagram`.
#[verifier::external_body]
pub(crate) fn packet_from(datagram: &[u8]) -> (packet: BytesMut)
    ensures
        contents(packet) == datagram@,
{
    BytesMut::from(datagram)
}

} // verus!
