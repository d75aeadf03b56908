//! The control connection: how control messages are framed on the wire, and
//! what a reader makes of the envelope it receives.
//!
//! A control message travels as a 4-byte big-endian length followed by that many
//! payload bytes. The frame is built with `bytes::BytesMut`; a reader decodes the
//! length prefix and checks it against `MAX_CONTROL_MESSAGE_SIZE`.

use bytes::{BufMut, BytesMut};
use vstd::prelude::*;

use crate::constant::{MAX_CONTROL_MESSAGE_SIZE, MESSAGE_LENGTH_SIZE_BYTES};
use crate::error::{Error, NetUtilError};
use crate::message::{ClientEnvelope, ClientMessage, ServerEnvelope, ServerMessage};

verus! {

/// `bytes::BytesMut`, a growable byte buffer.
#[verifier::external_type_specification]
#[verifier::external_body]
pub struct ExBytesMut(BytesMut);

/// The bytes held by a `BytesMut`, in order.
pub uninterp spec fn bytes_mut_contents(buf: BytesMut) -> Seq<u8>;

/// The four bytes of `n`, most significant first.
pub open spec fn be_bytes(n: u32) -> Seq<u8> {
    seq![
        (n / 0x100_0000) as u8,
        ((n / 0x1_0000) % 0x100) as u8,
        ((n / 0x100) % 0x100) as u8,
        (n % 0x100) as u8,
    ]
}

/// The number whose big-endian bytes are the first four of `b`.
pub open spec fn be_value(b: Seq<u8>) -> u32
    recommends
        b.len() >= 4,
{
    (b[0] * 0x100_0000 + b[1] * 0x1_0000 + b[2] * 0x100 + b[3]) as u32
}

/// The frame that carries `payload`: its length, big-endian, then the payload.
pub open spec fn control_frame(payload: Seq<u8>) -> Seq<u8> {
    be_bytes(payload.len() as u32) + payload
}

/// The payload length announced by a frame header.
pub open spec fn announced_length(header: Seq<u8>) -> u32 {
    be_value(header)
}

/// Reading back the big-endian bytes of `n` gives `n`.
pub proof fn lemma_be_roundtrip(n: u32)
    ensures
        be_bytes(n).len() == 4,
        be_value(be_bytes(n)) == n,
{
    assert(be_value(be_bytes(n)) == n) by (nonlinear_arith);
}

/// What a reader gets back of a written frame: the header announces the
/// payload's length, the payload follows right after it, and a payload within
/// `MAX_CONTROL_MESSAGE_SIZE` passes the reader's size check.
pub proof fn lemma_frame_roundtrip(payload: Seq<u8>)
    requires
        payload.len() <= u32::MAX,
    ensures
        control_frame(payload).len() == MESSAGE_LENGTH_SIZE_BYTES + payload.len(),
        announced_length(control_frame(payload)) == payload.len(),
        control_frame(payload).subrange(MESSAGE_LENGTH_SIZE_BYTES as int, control_frame(payload).len() as int) == payload,
        payload.len() <= MAX_CONTROL_MESSAGE_SIZE <==> announced_length(control_frame(payload)) <= MAX_CONTROL_MESSAGE_SIZE,
{
    lemma_be_roundtrip(payload.len() as u32);
    let frame = control_frame(payload);
    assert(frame.subrange(0, 4) =~= be_bytes(payload.len() as u32));
    assert(be_value(frame) == be_value(be_bytes(payload.len() as u32)));
    assert(frame.subrange(4, frame.len() as int) =~= payload);
}

/// `BytesMut::with_capacity`: a new buffer that holds no bytes yet.
#[verifier::external_body]
fn bytes_mut_with_capacity(capacity: usize) -> (buf: BytesMut)
    requires
        capacity <= isize::MAX,
    ensures
        bytes_mut_contents(buf) == Seq::<u8>::empty(),
{
    BytesMut::with_capacity(capacity)
}

/// `BufMut::put_u32` on a `BytesMut`: appends the four big-endian bytes of `n`.
#[verifier::external_body]
fn bytes_mut_put_u32(buf: &mut BytesMut, n: u32)
    requires
        bytes_mut_contents(*old(buf)).len() + 4 <= isize::MAX,
    ensures
        bytes_mut_contents(*final(buf)) == bytes_mut_contents(*old(buf)) + be_bytes(n),
{
    buf.put_u32(n)
}

/// `BufMut::put_slice` on a `BytesMut`: appends the bytes of `src`.
#[verifier::external_body]
fn bytes_mut_put_slice(buf: &mut BytesMut, src: &[u8])
    requires
        bytes_mut_contents(*old(buf)).len() + src@.len() <= isize::MAX,
    ensures
        bytes_mut_contents(*final(buf)) == bytes_mut_contents(*old(buf)) + src@,
{
    buf.put_slice(src)
}

/// `Vec::<u8>::from(BytesMut)`: the buffer's bytes as a vector.
#[verifier::external_body]
fn bytes_mut_into_vec(buf: BytesMut) -> (v: Vec<u8>)
    ensures
        v@ == bytes_mut_contents(buf),
{
    Vec::from(buf)
}

/// The big-endian number in the first four bytes of `bytes`.
fn read_be_u32(bytes: &[u8]) -> (n: u32)
    requires
        bytes@.len() >= 4,
    ensures
        n == be_value(bytes@),
{
    bytes[0] as u32 * 0x100_0000 + bytes[1] as u32 * 0x1_0000 + bytes[2] as u32 * 0x100 + bytes[3] as u32
}

/// Frames a serialized control message: length prefix, then the payload.
pub fn frame_control_message(payload: &[u8]) -> (frame: Vec<u8>)
    requires
        payload@.len() <= u32::MAX,
        payload@.len() + 4 <= isize::MAX,
    ensures
        frame@ == control_frame(payload@),
{
    let mut buf = bytes_mut_with_capacity(MESSAGE_LENGTH_SIZE_BYTES + payload.len());
    bytes_mut_put_u32(&mut buf, payload.len() as u32);
    bytes_mut_put_slice(&mut buf, payload);
    bytes_mut_into_vec(buf)
}

/// Reads the payload length from a frame header, refusing lengths above
/// `MAX_CONTROL_MESSAGE_SIZE`.
pub fn read_frame_length(header: &[u8]) -> (res: Result<u32, NetUtilError>)
    requires
        header@.len() >= 4,
    ensures
        announced_length(header@) <= MAX_CONTROL_MESSAGE_SIZE ==> res == Ok::<u32, NetUtilError>(
            announced_length(header@),
        ),
        announced_length(header@) > MAX_CONTROL_MESSAGE_SIZE ==> res == Err::<u32, NetUtilError>(
            NetUtilError::ControlMessageTooLarge(announced_length(header@)),
        ),
{
    let message_size = read_be_u32(header);
    if message_size > MAX_CONTROL_MESSAGE_SIZE {
        return Err(NetUtilError::ControlMessageTooLarge(message_size));
    }
    Ok(message_size)
}

/// The message in a server's envelope, or the error the server reported.
pub fn open_server_envelope(envelope: ServerEnvelope) -> (res: Result<ServerMessage, Error>)
    ensures
        match envelope {
            ServerEnvelope::Message(m) => res == Ok::<ServerMessage, Error>(m),
            ServerEnvelope::Error(e) => res == Err::<ServerMessage, Error>(Error::ServerError(e)),
        },
{
    match envelope {
        ServerEnvelope::Message(message) => Ok(message),
        ServerEnvelope::Error(e) => Err(Error::ServerError(e)),
    }
}

/// The message in a client's envelope, or the error the client reported.
pub fn open_client_envelope(envelope: ClientEnvelope) -> (res: Result<ClientMessage, Error>)
    ensures
        match envelope {
            ClientEnvelope::Message(m) => res == Ok::<ClientMessage, Error>(m),
            ClientEnvelope::Error(e) => res == Err::<ClientMessage, Error>(Error::ClientError(e)),
        },
{
    match envelope {
        ClientEnvelope::Message(message) => Ok(message),
        ClientEnvelope::Error(e) => Err(Error::ClientError(e)),
    }
}

} // verus!
