//! Fixed-capacity buffers: the `heapless` collections that hold payloads,
//! encoded frames and received bytes.
//!
//! Everything that the library knows of a `heapless` buffer is said here. The
//! contracts speak of the bytes that a buffer holds, in order.

use vstd::prelude::*;

verus! {

/// Longest payload of a frame.
pub const MAX_PAYLOAD_LEN: usize = 32;

/// Bytes of a frame before its payload.
pub const HEADER_LEN: usize = 21;

/// Bytes of a frame after its payload.
pub const CRC_LEN: usize = 2;

/// Longest encoded frame.
pub const MAX_FRAME_LEN: usize = HEADER_LEN + MAX_PAYLOAD_LEN + CRC_LEN;

/// Capacity of the receive buffer.
pub const RX_BUFFER_LEN: usize = MAX_FRAME_LEN * 6;

/// Vector of at most `N` items, stored inline.
#[verifier::external_type_specification]
#[verifier::external_body]
#[verifier::reject_recursive_types(T)]
pub struct ExHeaplessVec<T, const N: usize>(heapless::Vec<T, N>);

/// Payload of a frame.
pub type Payload = heapless::Vec<u8, MAX_PAYLOAD_LEN>;

/// Frame as it goes over the air.
pub type EncodedFrame = heapless::Vec<u8, MAX_FRAME_LEN>;

/// Received bytes that are not yet decoded.
pub type RxBuffer = heapless::Vec<u8, RX_BUFFER_LEN>;

/// The bytes that a payload holds.
pub uninterp spec fn payload_bytes(payload: heapless::Vec<u8, MAX_PAYLOAD_LEN>) -> Seq<u8>;

/// The bytes that an encoded frame holds.
pub uninterp spec fn encoded_bytes(encoded: heapless::Vec<u8, MAX_FRAME_LEN>) -> Seq<u8>;

/// The bytes that a receive buffer holds.
pub uninterp spec fn rx_bytes(buffer: heapless::Vec<u8, RX_BUFFER_LEN>) -> Seq<u8>;

/// `heapless::Vec::new` for payloads: the new vector is empty.
#[verifier::external_body]
pub(crate) fn payload_new() -> (payload: Payload)
    ensures
        payload_bytes(payload) == Seq::<u8>::empty(),
{
    heapless::Vec::new()
}

/// `heapless::Vec::push` for payloads: appends the byte while there is room,
/// and otherwise hands it back and changes nothing.
#[verifier::external_body]
pub(crate) fn payload_push(payload: &mut Payload, byte: u8) -> (pushed: Result<(), u8>)
    ensures
        payload_bytes(*old(payload)).len() < MAX_PAYLOAD_LEN ==> pushed is Ok
            && payload_bytes(*final(payload)) == payload_bytes(*old(payload)).push(byte),
        payload_bytes(*old(payload)).len() >= MAX_PAYLOAD_LEN ==> (pushed matches Err(back)
            && back == byte) && payload_bytes(*final(payload)) == payload_bytes(*old(payload)),
{
    payload.push(byte)
}

/// `heapless::Vec::extend_from_slice` for payloads: appends all the bytes where
/// they fit, and otherwise fails and changes nothing.
#[verifier::external_body]
pub(crate) fn payload_extend(payload: &mut Payload, bytes: &[u8]) -> (extended: Result<(), ()>)
    ensures
        payload_bytes(*old(payload)).len() + bytes@.len() <= MAX_PAYLOAD_LEN ==> extended is Ok
            && payload_bytes(*final(payload)) == payload_bytes(*old(payload)) + bytes@,
        payload_bytes(*old(payload)).len() + bytes@.len() > MAX_PAYLOAD_LEN ==> extended is Err
            && payload_bytes(*final(payload)) == payload_bytes(*old(payload)),
{
    payload.extend_from_slice(bytes)
}

/// `heapless::Vec::as_slice` for payloads: all the bytes in order, of which
/// there are no more than the vector has room for.
#[verifier::external_body]
pub(crate) fn payload_slice(payload: &Payload) -> (bytes: &[u8])
    ensures
        bytes@ == payload_bytes(*payload),
        bytes@.len() <= MAX_PAYLOAD_LEN,
{
    payload.as_slice()
}

/// `Clone::clone` of `heapless::Vec` for payloads: the copy holds the same
/// bytes.
#[verifier::external_body]
pub(crate) fn payload_clone(payload: &Payload) -> (copy: Payload)
    ensures
        payload_bytes(copy) == payload_bytes(*payload),
{
    payload.clone()
}

/// `heapless::Vec::new` for encoded frames: the new vector is empty.
#[verifier::external_body]
pub(crate) fn encoded_new() -> (encoded: EncodedFrame)
    ensures
        encoded_bytes(encoded) == Seq::<u8>::empty(),
{
    heapless::Vec::new()
}

/// `heapless::Vec::push` for encoded frames: appends the byte while there is
/// room, and otherwise hands it back and changes nothing.
#[verifier::external_body]
pub(crate) fn encoded_push(encoded: &mut EncodedFrame, byte: u8) -> (pushed: Result<(), u8>)
    ensures
        encoded_bytes(*old(encoded)).len() < MAX_FRAME_LEN ==> pushed is Ok
            && encoded_bytes(*final(encoded)) == encoded_bytes(*old(encoded)).push(byte),
        encoded_bytes(*old(encoded)).len() >= MAX_FRAME_LEN ==> (pushed matches Err(back)
            && back == byte) && encoded_bytes(*final(encoded)) == encoded_bytes(*old(encoded)),
{
    encoded.push(byte)
}

/// `heapless::Vec::extend_from_slice` for encoded frames: appends all the bytes
/// where they fit, and otherwise fails and changes nothing.
#[verifier::external_body]
pub(crate) fn encoded_extend(encoded: &mut EncodedFrame, bytes: &[u8]) -> (extended: Result<
    (),
    (),
>)
    ensures
        encoded_bytes(*old(encoded)).len() + bytes@.len() <= MAX_FRAME_LEN ==> extended is Ok
            && encoded_bytes(*final(encoded)) == encoded_bytes(*old(encoded)) + bytes@,
        encoded_bytes(*old(encoded)).len() + bytes@.len() > MAX_FRAME_LEN ==> extended is Err
            && encoded_bytes(*final(encoded)) == encoded_bytes(*old(encoded)),
{
    encoded.extend_from_slice(bytes)
}

/// `heapless::Vec::as_slice` for encoded frames: all the bytes in order, of
/// which there are no more than the vector has room for.
#[verifier::external_body]
pub(crate) fn encoded_slice(encoded: &EncodedFrame) -> (bytes: &[u8])
    ensures
        bytes@ == encoded_bytes(*encoded),
        bytes@.len() <= MAX_FRAME_LEN,
{
    encoded.as_slice()
}

/// `heapless::Vec::new` for receive buffers: the new vector is empty.
#[verifier::external_body]
pub(crate) fn rx_new() -> (buffer: RxBuffer)
    ensures
        rx_bytes(buffer) == Seq::<u8>::empty(),
{
    heapless::Vec::new()
}

/// `heapless::Vec::extend_from_slice` for receive buffers: appends all the
/// bytes where they fit, and otherwise fails and changes nothing.
#[verifier::external_body]
pub(crate) fn rx_extend(buffer: &mut RxBuffer, bytes: &[u8]) -> (extended: Result<(), ()>)
    ensures
        rx_bytes(*old(buffer)).len() + bytes@.len() <= RX_BUFFER_LEN ==> extended is Ok
            && rx_bytes(*final(buffer)) == rx_bytes(*old(buffer)) + bytes@,
        rx_bytes(*old(buffer)).len() + bytes@.len() > RX_BUFFER_LEN ==> extended is Err
            && rx_bytes(*final(buffer)) == rx_bytes(*old(buffer)),
{
    buffer.extend_from_slice(bytes)
}

/// `heapless::Vec::as_slice` for receive buffers: all the bytes in order, of
/// which there are no more than the vector has room for.
#[verifier::external_body]
pub(crate) fn rx_slice(buffer: &RxBuffer) -> (bytes: &[u8])
    ensures
        bytes@ == rx_bytes(*buffer),
        bytes@.len() <= RX_BUFFER_LEN,
{
    buffer.as_slice()
}

/// `heapless::Vec::as_mut_slice` for receive buffers, with one write through
/// it: the byte at `index` is replaced and the others stay.
#[verifier::external_body]
pub(crate) fn rx_set(buffer: &mut RxBuffer, index: usize, byte: u8)
    requires
        index < rx_bytes(*old(buffer)).len(),
    ensures
        rx_bytes(*final(buffer)) == rx_bytes(*old(buffer)).update(index as int, byte),
{
    buffer.as_mut_slice()[index] = byte;
}

/// `heapless::Vec::truncate` for receive buffers: keeps the first `len` bytes,
/// or all where there are fewer.
#[verifier::external_body]
pub(crate) fn rx_truncate(buffer: &mut RxBuffer, len: usize)
    ensures
        len <= rx_bytes(*old(buffer)).len() ==> rx_bytes(*final(buffer)) == rx_bytes(
            *old(buffer),
        ).take(len as int),
        len > rx_bytes(*old(buffer)).len() ==> rx_bytes(*final(buffer)) == rx_bytes(*old(buffer)),
{
    buffer.truncate(len)
}

/// `heapless::Vec::clear` for receive buffers: drops all the bytes.
#[verifier::external_body]
pub(crate) fn rx_clear(buffer: &mut RxBuffer)
    ensures
        rx_bytes(*final(buffer)) == Seq::<u8>::empty(),
{
    buffer.clear()
}

} // verus!
