//! Frames on the air, byte by byte: how they are laid out, checked and found.

use vstd::prelude::*;

use crate::protocol::{DecodeError, FrameType, FrameView};
use crate::{bytes, crc, frame_laws, protocol, stream, stream_laws, timer_laws};

verus! {

/// The number that stands for a frame type.
pub open spec fn type_number(frame_type: FrameType) -> u8 {
    match frame_type {
        FrameType::Hello => 1,
        FrameType::JoinAck => 2,
        FrameType::Sync => 3,
        FrameType::Schedule => 4,
        FrameType::Data => 5,
        FrameType::Alarm => 6,
        FrameType::Ack => 7,
        FrameType::Heartbeat => 8,
    }
}

/// Eight bytes as a number, the low byte first.
pub open spec fn le64(stream: Seq<u8>, at: int) -> int {
    frame_laws::le32(stream, at) + 0x1_0000_0000 * frame_laws::le32(stream, at + 4)
}

proof fn lemma_le64(all: Seq<u8>, at: int)
    requires
        0 <= at,
        at + 8 <= all.len(),
    ensures
        bytes::le_value(all.subrange(at, at + 8)) == le64(all, at),
        0 <= le64(all, at) < 0x1_0000_0000_0000_0000,
{
    let part = all.subrange(at, at + 8);
    bytes::lemma_le_value_split(part, 4);
    bytes::lemma_pow256_values();
    frame_laws::lemma_le32(all, at);
    frame_laws::lemma_le32(all, at + 4);
    assert(part.take(4) =~= all.subrange(at, at + 4));
    assert(part.skip(4) =~= all.subrange(at + 4, at + 8));
}

/// A frame on the air: two fixed bytes, network, sender, receiver, role, zone, type,
/// sequence number, hop, time and payload length in 21 bytes, then the payload, and
/// then the checksum of all that, the low byte of each number first.
pub proof fn law_wire_is_laid_out(frame: FrameView)
    requires
        frame.payload.len() <= 32,
    ensures
        ({
            let wire = frame.wire();
            let len = frame.payload.len() as int;
            &&& wire.len() == 23 + len
            &&& wire[0] == 0xc3
            &&& wire[1] == 1
            &&& frame_laws::le16(wire, 2) == frame.net_id
            &&& wire[4] == frame.src_id
            &&& wire[5] == frame.dst_id
            &&& wire[6] == timer_laws::id_of(frame.node_role)
            &&& wire[7] == frame.zone_id
            &&& wire[8] == type_number(frame.frame_type)
            &&& frame_laws::le16(wire, 9) == frame.seq
            &&& wire[11] == frame.hop
            &&& le64(wire, 12) == frame.gateway_time_ms
            &&& wire[20] == len
            &&& wire.subrange(21, 21 + len) == frame.payload
            &&& frame_laws::le16(wire, 21 + len) == crc::crc16(wire.subrange(0, 21 + len))
        }),
{
    let wire = frame.wire();
    let len = frame.payload.len() as int;
    protocol::law_decode_undoes_encode(frame);
    protocol::lemma_header_len(frame);
    bytes::lemma_le_bytes_len(crc::crc16(frame.body()) as nat, 2);
    law_parse_is_byte_by_byte(wire);
    assert(wire.take(21 + len) =~= wire.subrange(0, 21 + len));
}

/// What bytes are taken for, as one whole frame: the first fault that they have, in
/// this order, or else the frame with the fields that they say.
pub proof fn law_parse_is_byte_by_byte(wire: Seq<u8>)
    ensures
        ({
            let parsed = protocol::parse(wire);
            let covered = wire.len() - 2;
            if wire.len() < 23 {
                parsed == Err::<FrameView, DecodeError>(DecodeError::TooShort)
            } else if wire[0] != 0xc3 {
                parsed == Err::<FrameView, DecodeError>(DecodeError::BadMagic)
            } else if wire[1] != 1 {
                parsed == Err::<FrameView, DecodeError>(DecodeError::UnsupportedVersion)
            } else if wire.len() != 23 + wire[20] {
                parsed == Err::<FrameView, DecodeError>(DecodeError::BadLength)
            } else if wire[20] > 32 {
                parsed == Err::<FrameView, DecodeError>(DecodeError::PayloadTooLong)
            } else if frame_laws::le16(wire, covered) != crc::crc16(wire.subrange(0, covered)) {
                parsed == Err::<FrameView, DecodeError>(DecodeError::BadCrc)
            } else if wire[6] < 1 || wire[6] > 3 {
                parsed == Err::<FrameView, DecodeError>(DecodeError::BadRole)
            } else if wire[8] < 1 || wire[8] > 8 {
                parsed == Err::<FrameView, DecodeError>(DecodeError::BadFrameType)
            } else {
                &&& parsed matches Ok(frame)
                &&& frame.net_id == frame_laws::le16(wire, 2)
                &&& frame.src_id == wire[4]
                &&& frame.dst_id == wire[5]
                &&& timer_laws::id_of(frame.node_role) == wire[6]
                &&& frame.zone_id == wire[7]
                &&& type_number(frame.frame_type) == wire[8]
                &&& frame.seq == frame_laws::le16(wire, 9)
                &&& frame.hop == wire[11]
                &&& frame.gateway_time_ms == le64(wire, 12)
                &&& frame.payload == wire.subrange(21, covered)
            }
        }),
{
    if wire.len() >= 23 {
        let covered = wire.len() - 2;
        frame_laws::lemma_le16(wire, 2);
        frame_laws::lemma_le16(wire, 9);
        frame_laws::lemma_le16(wire, covered);
        lemma_le64(wire, 12);
        assert(wire.skip(covered) =~= wire.subrange(covered, covered + 2));
        assert(wire.take(covered) =~= wire.subrange(0, covered));
    }
}

/// The CRC-16 of frames starts from all ones, and each byte more folds into it by
/// the polynomial x^16 + x^12 + x^5 + 1.
pub proof fn law_crc16_folds_in_bytes(front: Seq<u8>, byte: u8)
    ensures
        crc::crc16(Seq::<u8>::empty()) == 0xffff,
        ({
            let crc = crc::crc16(front);
            let x = (crc >> 8) ^ (byte as u16);
            let y = x ^ (x >> 4);
            crc::crc16(front.push(byte)) == (crc << 8) ^ (y << 12) ^ (y << 5) ^ y
        }),
{
    let crc = crc::crc16(front);
    let all = front.push(byte);
    assert(all.drop_last() =~= front);
    reveal_with_fuel(crc::crc16_shifts, 9);
    let r0 = crc ^ ((byte as u16) << 8);
    let r1 = crc::crc16_shift(r0);
    let r2 = crc::crc16_shift(r1);
    let r3 = crc::crc16_shift(r2);
    let r4 = crc::crc16_shift(r3);
    let r5 = crc::crc16_shift(r4);
    let r6 = crc::crc16_shift(r5);
    let r7 = crc::crc16_shift(r6);
    let r8 = crc::crc16_shift(r7);
    let x = (crc >> 8) ^ (byte as u16);
    let y = x ^ (x >> 4);
    assert(r8 == (crc << 8) ^ (y << 12) ^ (y << 5) ^ y) by (bit_vector)
        requires
            r0 == crc ^ ((byte as u16) << 8),
            r1 == (if r0 & 0x8000 != 0 { (r0 << 1) ^ 0x1021 } else { r0 << 1 }),
            r2 == (if r1 & 0x8000 != 0 { (r1 << 1) ^ 0x1021 } else { r1 << 1 }),
            r3 == (if r2 & 0x8000 != 0 { (r2 << 1) ^ 0x1021 } else { r2 << 1 }),
            r4 == (if r3 & 0x8000 != 0 { (r3 << 1) ^ 0x1021 } else { r3 << 1 }),
            r5 == (if r4 & 0x8000 != 0 { (r4 << 1) ^ 0x1021 } else { r4 << 1 }),
            r6 == (if r5 & 0x8000 != 0 { (r5 << 1) ^ 0x1021 } else { r5 << 1 }),
            r7 == (if r6 & 0x8000 != 0 { (r6 << 1) ^ 0x1021 } else { r6 << 1 }),
            r8 == (if r7 & 0x8000 != 0 { (r7 << 1) ^ 0x1021 } else { r7 << 1 }),
            x == (crc >> 8) ^ (byte as u16),
            y == x ^ (x >> 4),
    ;
}

/// One of two bytes, by a bit of `x`.
pub open spec fn if_bit(x: u8, bit: u8, value: u8) -> u8 {
    if x & bit != 0 {
        value
    } else {
        0
    }
}

/// The CRC-8 of the humidity sensor starts from all ones, and each byte more folds
/// into it by the polynomial x^8 + x^5 + x^4 + 1: every bit of register and byte
/// together adds its own remainder.
pub proof fn law_crc8_folds_in_bytes(front: Seq<u8>, byte: u8)
    ensures
        crc::spec_crc8(Seq::<u8>::empty()) == 0xff,
        ({
            let x = crc::spec_crc8(front) ^ byte;
            crc::spec_crc8(front.push(byte)) == if_bit(x, 1, 0x31) ^ if_bit(x, 2, 0x62) ^ if_bit(
                x,
                4,
                0xc4,
            ) ^ if_bit(x, 8, 0xb9) ^ if_bit(x, 16, 0x43) ^ if_bit(x, 32, 0x86) ^ if_bit(
                x,
                64,
                0x3d,
            ) ^ if_bit(x, 128, 0x7a)
        }),
{
    let all = front.push(byte);
    assert(all.drop_last() =~= front);
    reveal_with_fuel(crc::crc8_shifts, 9);
    let r0 = crc::spec_crc8(front) ^ byte;
    let r1 = crc::crc8_shift(r0);
    let r2 = crc::crc8_shift(r1);
    let r3 = crc::crc8_shift(r2);
    let r4 = crc::crc8_shift(r3);
    let r5 = crc::crc8_shift(r4);
    let r6 = crc::crc8_shift(r5);
    let r7 = crc::crc8_shift(r6);
    let r8 = crc::crc8_shift(r7);
    assert(r8 == if_bit(r0, 1, 0x31) ^ if_bit(r0, 2, 0x62) ^ if_bit(r0, 4, 0xc4) ^ if_bit(
        r0,
        8,
        0xb9,
    ) ^ if_bit(r0, 16, 0x43) ^ if_bit(r0, 32, 0x86) ^ if_bit(r0, 64, 0x3d) ^ if_bit(r0, 128, 0x7a))
        by (bit_vector)
        requires
            r1 == (if r0 & 0x80 != 0 { (r0 << 1) ^ 0x31 } else { r0 << 1 }),
            r2 == (if r1 & 0x80 != 0 { (r1 << 1) ^ 0x31 } else { r1 << 1 }),
            r3 == (if r2 & 0x80 != 0 { (r2 << 1) ^ 0x31 } else { r2 << 1 }),
            r4 == (if r3 & 0x80 != 0 { (r3 << 1) ^ 0x31 } else { r3 << 1 }),
            r5 == (if r4 & 0x80 != 0 { (r4 << 1) ^ 0x31 } else { r4 << 1 }),
            r6 == (if r5 & 0x80 != 0 { (r5 << 1) ^ 0x31 } else { r5 << 1 }),
            r7 == (if r6 & 0x80 != 0 { (r6 << 1) ^ 0x31 } else { r6 << 1 }),
            r8 == (if r7 & 0x80 != 0 { (r7 << 1) ^ 0x31 } else { r7 << 1 }),
    ;
}

/// No frame starts at a position, whatever may still come: the byte there is not
/// the first of a frame, or the header is there and says another version or a
/// payload that is too long, or all that the header announces is there and is no
/// frame.
pub open spec fn starts_no_frame(received: Seq<u8>, i: int) -> bool {
    ||| received[i] != 0xc3
    ||| i + 23 <= received.len() && (received[i + 1] != 1 || received[i + 20] > 32)
    ||| i + 23 <= received.len() && i + 23 + received[i + 20] <= received.len()
        && protocol::parse(received.subrange(i, i + 23 + received[i + 20])) is Err
}

/// The first frame in what was received is found behind everything that starts no
/// frame, and what follows it is kept, byte for byte.
pub proof fn law_first_frame_is_found(received: Seq<u8>, k: int, frame: FrameView)
    requires
        frame.payload.len() <= 32,
        0 <= k,
        k + frame.wire().len() <= received.len(),
        received.subrange(k, k + frame.wire().len()) == frame.wire(),
        forall|j: int| 0 <= j < k ==> starts_no_frame(received, j),
    ensures
        stream::scan(received) == (
            Some(frame),
            received.subrange(k + frame.wire().len(), received.len() as int),
        ),
{
    let end = k + frame.wire().len();
    let noise = received.take(k);
    let rest = received.skip(end);
    assert(noise + frame.wire() + rest =~= received) by {
        assert forall|i: int| k <= i < end implies received[i] == frame.wire()[i - k] by {
            assert(received.subrange(k, end)[i - k] == received[i]);
        }
    }
    assert forall|j: int| 0 <= j < noise.len() implies stream::rejected_at(received, j) by {
        assert(starts_no_frame(received, j));
    }
    stream_laws::law_frame_behind_rejected_bytes(noise, frame, rest);
    assert(rest =~= received.subrange(end, received.len() as int));
}

/// Where no whole frame is there yet, none is found, and what is kept begins where
/// a frame may still start, or is empty.
pub proof fn law_unfinished_frame_is_kept(received: Seq<u8>, k: int)
    requires
        0 <= k <= received.len(),
        forall|j: int| 0 <= j < k ==> starts_no_frame(received, j),
        k < received.len() ==> !starts_no_frame(received, k) && (k + 23 > received.len() || k + 23
            + received[k + 20] > received.len()),
    ensures
        stream::scan(received) == (
            None::<FrameView>,
            received.subrange(k, received.len() as int),
        ),
{
    assert forall|j: int| 0 <= j < k implies stream::rejected_at(received, j) by {
        assert(starts_no_frame(received, j));
    }
    stream::lemma_first_candidate(received, 0, k);
    assert(received.skip(k) =~= received.subrange(k, received.len() as int));
}

} // verus!
