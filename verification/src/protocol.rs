//! Compact binary wire protocol shared by every node.
//!
//! A frame has a fixed layout up to its bounded payload, so that encoding and
//! decoding are deterministic and a receiver can resynchronize after byte loss
//! or noise.

use vstd::prelude::*;

pub use crate::buffers::{
    EncodedFrame, Payload, RxBuffer, CRC_LEN, HEADER_LEN, MAX_FRAME_LEN, MAX_PAYLOAD_LEN,
    RX_BUFFER_LEN,
};
pub use crate::crc::crc16_ccitt;
pub use crate::error::EncodeError;
pub use crate::payload::{
    ack_payload, data_payload, decode_ack_payload, decode_data_payload, decode_heartbeat_payload,
    decode_join_ack_payload, decode_sync_payload, heartbeat_payload, hello_payload,
    join_ack_payload, sync_payload,
};
pub use crate::stream::{FrameStreamDecoder, StreamDecodeError};

use crate::buffers::{
    encoded_extend, encoded_new, encoded_push, encoded_slice, payload_clone, payload_extend,
    payload_new, payload_slice,
};
use crate::bytes::{u16_from_le, u16_to_le, u64_from_le, u64_to_le};
use crate::{buffers, bytes, crc};
use crate::role::NodeRole;

verus! {

/// First byte of every frame.
pub const MAGIC: u8 = 0xc3;

/// Second byte of every frame.
pub const VERSION: u8 = 1;

/// Bit of the relay in a heartbeat's presence mask.
pub const HEARTBEAT_PRESENCE_RELAY: u8 = 4;

/// Bit of the sensor in a heartbeat's presence mask.
pub const HEARTBEAT_PRESENCE_SENSOR: u8 = 8;

/// Application frame kind carried in the wire header.
#[derive(Debug, Clone, Copy, PartialEq, Eq, Structural)]
pub enum FrameType {
    Hello,
    JoinAck,
    Sync,
    Schedule,
    Data,
    Alarm,
    Ack,
    Heartbeat,
}

impl FrameType {
    /// The frame type whose wire value is `value`, if there is one.
    pub open spec fn spec_from_u8(value: u8) -> Option<FrameType> {
        match value {
            1 => Some(FrameType::Hello),
            2 => Some(FrameType::JoinAck),
            3 => Some(FrameType::Sync),
            4 => Some(FrameType::Schedule),
            5 => Some(FrameType::Data),
            6 => Some(FrameType::Alarm),
            7 => Some(FrameType::Ack),
            8 => Some(FrameType::Heartbeat),
            _ => None,
        }
    }

    /// Decode the compact wire value used in frame headers.
    #[verifier::when_used_as_spec(spec_from_u8)]
    pub fn from_u8(value: u8) -> (frame_type: Option<FrameType>)
        ensures
            frame_type == Self::spec_from_u8(value),
    {
        match value {
            1 => Some(FrameType::Hello),
            2 => Some(FrameType::JoinAck),
            3 => Some(FrameType::Sync),
            4 => Some(FrameType::Schedule),
            5 => Some(FrameType::Data),
            6 => Some(FrameType::Alarm),
            7 => Some(FrameType::Ack),
            8 => Some(FrameType::Heartbeat),
            _ => None,
        }
    }

    pub open spec fn spec_to_u8(self) -> u8 {
        match self {
            FrameType::Hello => 1,
            FrameType::JoinAck => 2,
            FrameType::Sync => 3,
            FrameType::Schedule => 4,
            FrameType::Data => 5,
            FrameType::Alarm => 6,
            FrameType::Ack => 7,
            FrameType::Heartbeat => 8,
        }
    }

    /// Wire value of this frame type.
    #[verifier::when_used_as_spec(spec_to_u8)]
    pub fn to_u8(self) -> (value: u8)
        ensures
            value == self.spec_to_u8(),
    {
        match self {
            FrameType::Hello => 1,
            FrameType::JoinAck => 2,
            FrameType::Sync => 3,
            FrameType::Schedule => 4,
            FrameType::Data => 5,
            FrameType::Alarm => 6,
            FrameType::Ack => 7,
            FrameType::Heartbeat => 8,
        }
    }

    /// Frames that a node sends periodically, in a slot of its own. The others
    /// are reactive and not bound to slots.
    pub open spec fn is_periodic(self) -> bool {
        self == FrameType::Data || self == FrameType::Alarm || self == FrameType::Heartbeat
    }

    pub open spec fn spec_label(self) -> Seq<char> {
        match self {
            FrameType::Hello => "HELLO"@,
            FrameType::JoinAck => "JOIN_ACK"@,
            FrameType::Sync => "SYNC"@,
            FrameType::Schedule => "SCHEDULE"@,
            FrameType::Data => "DATA"@,
            FrameType::Alarm => "ALARM"@,
            FrameType::Ack => "ACK"@,
            FrameType::Heartbeat => "HEARTBEAT"@,
        }
    }

    /// Uppercase name used in logs.
    pub fn label(self) -> (text: &'static str)
        ensures
            text@ == self.spec_label(),
    {
        match self {
            FrameType::Hello => "HELLO",
            FrameType::JoinAck => "JOIN_ACK",
            FrameType::Sync => "SYNC",
            FrameType::Schedule => "SCHEDULE",
            FrameType::Data => "DATA",
            FrameType::Alarm => "ALARM",
            FrameType::Ack => "ACK",
            FrameType::Heartbeat => "HEARTBEAT",
        }
    }
}

/// The bit of `role` in a presence mask: the one numbered by its node
/// identifier.
pub open spec fn presence_bit(role: NodeRole) -> u8 {
    1u8 << role.node_id()
}

/// Presence mask in which `role` alone is present.
pub fn heartbeat_presence_for_role(role: NodeRole) -> (mask: u8)
    ensures
        mask == presence_bit(role),
{
    1u8 << role.node_id()
}

/// Whether `role` is present in `mask`.
pub fn heartbeat_presence_contains(mask: u8, role: NodeRole) -> (present: bool)
    ensures
        present == (mask & presence_bit(role) != 0),
{
    (mask & heartbeat_presence_for_role(role)) != 0
}

/// Decoded protocol frame.
///
/// `payload` is read according to `frame_type`.
#[derive(Debug, PartialEq, Eq)]
pub struct Frame {
    pub net_id: u16,
    pub src_id: u8,
    pub dst_id: u8,
    pub node_role: NodeRole,
    pub zone_id: u8,
    pub frame_type: FrameType,
    pub seq: u16,
    pub hop: u8,
    pub gateway_time_ms: u64,
    pub payload: Payload,
}

/// What a frame says: its fields, with the payload as a sequence of bytes.
#[verifier::ext_equal]
pub struct FrameView {
    pub net_id: u16,
    pub src_id: u8,
    pub dst_id: u8,
    pub node_role: NodeRole,
    pub zone_id: u8,
    pub frame_type: FrameType,
    pub seq: u16,
    pub hop: u8,
    pub gateway_time_ms: u64,
    pub payload: Seq<u8>,
}

impl View for Frame {
    type V = FrameView;

    open spec fn view(&self) -> FrameView {
        FrameView {
            net_id: self.net_id,
            src_id: self.src_id,
            dst_id: self.dst_id,
            node_role: self.node_role,
            zone_id: self.zone_id,
            frame_type: self.frame_type,
            seq: self.seq,
            hop: self.hop,
            gateway_time_ms: self.gateway_time_ms,
            payload: buffers::payload_bytes(self.payload),
        }
    }
}

impl Clone for Frame {
    fn clone(&self) -> (copy: Frame)
        ensures
            copy@ == self@,
    {
        Frame {
            net_id: self.net_id,
            src_id: self.src_id,
            dst_id: self.dst_id,
            node_role: self.node_role,
            zone_id: self.zone_id,
            frame_type: self.frame_type,
            seq: self.seq,
            hop: self.hop,
            gateway_time_ms: self.gateway_time_ms,
            payload: payload_clone(&self.payload),
        }
    }
}

impl FrameView {
    /// The header: everything before the payload.
    pub open spec fn header(self) -> Seq<u8> {
        seq![MAGIC, VERSION] + bytes::le_bytes(self.net_id as nat, 2) + seq![
            self.src_id,
            self.dst_id,
            self.node_role.node_id(),
            self.zone_id,
            self.frame_type.to_u8(),
        ] + bytes::le_bytes(self.seq as nat, 2) + seq![self.hop] + bytes::le_bytes(
            self.gateway_time_ms as nat,
            8,
        ) + seq![self.payload.len() as u8]
    }

    /// What the checksum covers.
    pub open spec fn body(self) -> Seq<u8> {
        self.header() + self.payload
    }

    /// The frame as it goes over the air.
    pub open spec fn wire(self) -> Seq<u8> {
        self.body() + bytes::le_bytes(crc::crc16(self.body()) as nat, 2)
    }

    /// The payload is one that a frame can carry.
    pub open spec fn fits(self) -> bool {
        self.payload.len() <= MAX_PAYLOAD_LEN
    }
}

/// The fields that `bytes` hold, where they are a frame with a known role and a
/// known frame type.
pub open spec fn fields_of(bytes: Seq<u8>, role: NodeRole, frame_type: FrameType) -> FrameView {
    FrameView {
        net_id: bytes::le_value(bytes.subrange(2, 4)) as u16,
        src_id: bytes[4],
        dst_id: bytes[5],
        node_role: role,
        zone_id: bytes[7],
        frame_type,
        seq: bytes::le_value(bytes.subrange(9, 11)) as u16,
        hop: bytes[11],
        gateway_time_ms: bytes::le_value(bytes.subrange(12, 20)) as u64,
        payload: bytes.subrange(HEADER_LEN as int, bytes.len() - CRC_LEN),
    }
}

/// What decoding `bytes` as one whole frame gives: the first fault that they
/// have, or else the frame.
pub open spec fn parse(bytes: Seq<u8>) -> Result<FrameView, DecodeError> {
    if bytes.len() < HEADER_LEN + CRC_LEN {
        Err(DecodeError::TooShort)
    } else if bytes[0] != MAGIC {
        Err(DecodeError::BadMagic)
    } else if bytes[1] != VERSION {
        Err(DecodeError::UnsupportedVersion)
    } else if bytes.len() != HEADER_LEN + bytes[20] + CRC_LEN {
        Err(DecodeError::BadLength)
    } else if bytes[20] > MAX_PAYLOAD_LEN {
        Err(DecodeError::PayloadTooLong)
    } else if bytes::le_value(bytes.skip(bytes.len() - CRC_LEN)) != crc::crc16(
        bytes.take(bytes.len() - CRC_LEN),
    ) {
        Err(DecodeError::BadCrc)
    } else {
        match (NodeRole::from_u8(bytes[6]), FrameType::from_u8(bytes[8])) {
            (None, _) => Err(DecodeError::BadRole),
            (Some(_), None) => Err(DecodeError::BadFrameType),
            (Some(role), Some(frame_type)) => Ok(fields_of(bytes, role, frame_type)),
        }
    }
}

/// Append one byte to an encoded frame.
fn push(out: &mut EncodedFrame, byte: u8) -> (pushed: Result<(), EncodeError>)
    ensures
        buffers::encoded_bytes(*old(out)).len() < MAX_FRAME_LEN ==> pushed is Ok && buffers::encoded_bytes(
            *final(out),
        ) == buffers::encoded_bytes(*old(out)).push(byte),
        buffers::encoded_bytes(*old(out)).len() >= MAX_FRAME_LEN ==> pushed == Result::<(), EncodeError>::Err(
            EncodeError::FrameTooLong,
        ) && buffers::encoded_bytes(*final(out)) == buffers::encoded_bytes(*old(out)),
{
    match encoded_push(out, byte) {
        Ok(()) => Ok(()),
        Err(_) => Err(EncodeError::FrameTooLong),
    }
}

/// Append bytes to an encoded frame.
fn extend(out: &mut EncodedFrame, bytes: &[u8]) -> (extended: Result<(), EncodeError>)
    ensures
        buffers::encoded_bytes(*old(out)).len() + bytes@.len() <= MAX_FRAME_LEN ==> extended is Ok
            && buffers::encoded_bytes(*final(out)) == buffers::encoded_bytes(*old(out)) + bytes@,
        buffers::encoded_bytes(*old(out)).len() + bytes@.len() > MAX_FRAME_LEN ==> extended == Result::<
            (),
            EncodeError,
        >::Err(EncodeError::FrameTooLong) && buffers::encoded_bytes(*final(out)) == buffers::encoded_bytes(*old(out)),
{
    match encoded_extend(out, bytes) {
        Ok(()) => Ok(()),
        Err(()) => Err(EncodeError::FrameTooLong),
    }
}

impl Frame {
    /// Encode the frame for the air. Every frame fits.
    pub fn encode(&self) -> (encoded: Result<EncodedFrame, EncodeError>)
        ensures
            encoded matches Ok(out) && buffers::encoded_bytes(out) == self@.wire(),
    {
        let payload = payload_slice(&self.payload);
        proof {
            lemma_header_len(self@);
            bytes::lemma_le_bytes_len(self.net_id as nat, 2);
            bytes::lemma_le_bytes_len(self.seq as nat, 2);
            bytes::lemma_le_bytes_len(self.gateway_time_ms as nat, 8);
            bytes::lemma_le_bytes_len(crc::crc16(self@.body()) as nat, 2);
        }
        let mut out = encoded_new();
        push(&mut out, MAGIC)?;
        push(&mut out, VERSION)?;
        extend(&mut out, &u16_to_le(self.net_id))?;
        push(&mut out, self.src_id)?;
        push(&mut out, self.dst_id)?;
        push(&mut out, self.node_role.node_id())?;
        push(&mut out, self.zone_id)?;
        push(&mut out, self.frame_type.to_u8())?;
        extend(&mut out, &u16_to_le(self.seq))?;
        push(&mut out, self.hop)?;
        extend(&mut out, &u64_to_le(self.gateway_time_ms))?;
        push(&mut out, payload.len() as u8)?;
        assert(buffers::encoded_bytes(out) =~= self@.header());
        extend(&mut out, payload)?;
        let crc: u16 = crc16_ccitt(encoded_slice(&out));
        extend(&mut out, &u16_to_le(crc))?;
        Ok(out)
    }

    /// Decode one whole frame.
    pub fn decode(bytes: &[u8]) -> (decoded: Result<Frame, DecodeError>)
        ensures
            match parse(bytes@) {
                Ok(view) => decoded matches Ok(frame) && frame@ == view && view.fits(),
                Err(error) => decoded == Result::<Frame, DecodeError>::Err(error),
            },
    {
        if bytes.len() < HEADER_LEN + CRC_LEN {
            return Err(DecodeError::TooShort);
        }
        if bytes[0] != MAGIC {
            return Err(DecodeError::BadMagic);
        }
        if bytes[1] != VERSION {
            return Err(DecodeError::UnsupportedVersion);
        }
        let payload_len: usize = bytes[20] as usize;
        let expected_len: usize = HEADER_LEN + payload_len + CRC_LEN;
        if bytes.len() != expected_len {
            return Err(DecodeError::BadLength);
        }
        if payload_len > MAX_PAYLOAD_LEN {
            return Err(DecodeError::PayloadTooLong);
        }
        let covered: usize = HEADER_LEN + payload_len;
        let expected_crc: u16 = u16_from_le(bytes, covered);
        let actual_crc: u16 = crc16_ccitt(&bytes[0..covered]);
        proof {
            assert(bytes@.subrange(covered as int, covered + 2) =~= bytes@.skip(covered as int));
            assert(bytes@.subrange(0, covered as int) =~= bytes@.take(covered as int));
        }
        if expected_crc != actual_crc {
            return Err(DecodeError::BadCrc);
        }
        let node_role = match NodeRole::from_u8(bytes[6]) {
            Some(role) => role,
            None => return Err(DecodeError::BadRole),
        };
        let frame_type = match FrameType::from_u8(bytes[8]) {
            Some(frame_type) => frame_type,
            None => return Err(DecodeError::BadFrameType),
        };
        let mut payload = payload_new();
        if payload_extend(&mut payload, &bytes[HEADER_LEN..covered]).is_err() {
            return Err(DecodeError::PayloadTooLong);
        }
        let frame = Frame {
            net_id: u16_from_le(bytes, 2),
            src_id: bytes[4],
            dst_id: bytes[5],
            node_role,
            zone_id: bytes[7],
            frame_type,
            seq: u16_from_le(bytes, 9),
            hop: bytes[11],
            gateway_time_ms: u64_from_le(bytes, 12),
            payload,
        };
        assert(frame@ =~= fields_of(bytes@, node_role, frame_type));
        Ok(frame)
    }
}

/// Failure while validating a complete frame buffer.
#[derive(Debug, Clone, Copy, PartialEq, Eq, Structural)]
pub enum DecodeError {
    TooShort,
    BadMagic,
    UnsupportedVersion,
    BadLength,
    PayloadTooLong,
    BadCrc,
    BadRole,
    BadFrameType,
}

impl DecodeError {
    pub open spec fn spec_message(self) -> Seq<char> {
        match self {
            DecodeError::TooShort => "frame is too short"@,
            DecodeError::BadMagic => "bad frame magic"@,
            DecodeError::UnsupportedVersion => "unsupported frame version"@,
            DecodeError::BadLength => "bad frame length"@,
            DecodeError::PayloadTooLong => "payload is too long"@,
            DecodeError::BadCrc => "bad crc"@,
            DecodeError::BadRole => "bad node role"@,
            DecodeError::BadFrameType => "bad frame type"@,
        }
    }

    /// What a log line says of this error.
    pub fn message(self) -> (text: &'static str)
        ensures
            text@ == self.spec_message(),
    {
        match self {
            DecodeError::TooShort => "frame is too short",
            DecodeError::BadMagic => "bad frame magic",
            DecodeError::UnsupportedVersion => "unsupported frame version",
            DecodeError::BadLength => "bad frame length",
            DecodeError::PayloadTooLong => "payload is too long",
            DecodeError::BadCrc => "bad crc",
            DecodeError::BadRole => "bad node role",
            DecodeError::BadFrameType => "bad frame type",
        }
    }
}

pub proof fn lemma_header_len(frame: FrameView)
    ensures
        frame.header().len() == HEADER_LEN,
{
    bytes::lemma_le_bytes_len(frame.net_id as nat, 2);
    bytes::lemma_le_bytes_len(frame.seq as nat, 2);
    bytes::lemma_le_bytes_len(frame.gateway_time_ms as nat, 8);
}

/// Where the parts of an encoded frame lie.
proof fn lemma_wire_layout(frame: FrameView)
    requires
        frame.fits(),
    ensures
        ({
            let wire = frame.wire();
            let covered = HEADER_LEN + frame.payload.len();
            &&& wire.len() == covered + CRC_LEN
            &&& wire[0] == MAGIC
            &&& wire[1] == VERSION
            &&& wire.subrange(2, 4) == bytes::le_bytes(frame.net_id as nat, 2)
            &&& wire[4] == frame.src_id
            &&& wire[5] == frame.dst_id
            &&& wire[6] == frame.node_role.node_id()
            &&& wire[7] == frame.zone_id
            &&& wire[8] == frame.frame_type.to_u8()
            &&& wire.subrange(9, 11) == bytes::le_bytes(frame.seq as nat, 2)
            &&& wire[11] == frame.hop
            &&& wire.subrange(12, 20) == bytes::le_bytes(frame.gateway_time_ms as nat, 8)
            &&& wire[20] == frame.payload.len()
            &&& wire.subrange(HEADER_LEN as int, covered as int) == frame.payload
            &&& wire.take(covered as int) == frame.body()
            &&& wire.skip(covered as int) == bytes::le_bytes(crc::crc16(frame.body()) as nat, 2)
        }),
{
    lemma_header_len(frame);
    bytes::lemma_le_bytes_len(frame.net_id as nat, 2);
    bytes::lemma_le_bytes_len(frame.seq as nat, 2);
    bytes::lemma_le_bytes_len(frame.gateway_time_ms as nat, 8);
    bytes::lemma_le_bytes_len(crc::crc16(frame.body()) as nat, 2);
    let wire = frame.wire();
    let covered = HEADER_LEN + frame.payload.len();
    assert(wire.subrange(2, 4) =~= bytes::le_bytes(frame.net_id as nat, 2));
    assert(wire.subrange(9, 11) =~= bytes::le_bytes(frame.seq as nat, 2));
    assert(wire.subrange(12, 20) =~= bytes::le_bytes(frame.gateway_time_ms as nat, 8));
    assert(wire.subrange(HEADER_LEN as int, covered as int) =~= frame.payload);
    assert(wire.take(covered as int) =~= frame.body());
    assert(wire.skip(covered as int) =~= bytes::le_bytes(crc::crc16(frame.body()) as nat, 2));
}

/// Decoding an encoded frame gives the frame back.
pub proof fn law_decode_undoes_encode(frame: FrameView)
    requires
        frame.fits(),
    ensures
        parse(frame.wire()) == Ok::<FrameView, DecodeError>(frame),
{
    let wire = frame.wire();
    lemma_wire_layout(frame);
    bytes::lemma_pow256_values();
    bytes::law_le_value_of_le_bytes(frame.net_id as nat, 2);
    bytes::law_le_value_of_le_bytes(frame.seq as nat, 2);
    bytes::law_le_value_of_le_bytes(frame.gateway_time_ms as nat, 8);
    bytes::law_le_value_of_le_bytes(crc::crc16(frame.body()) as nat, 2);
    assert(fields_of(wire, frame.node_role, frame.frame_type) =~= frame);
}

/// A frame has one encoding only: bytes that decode are the encoding of what
/// they decode to.
pub proof fn law_encode_undoes_decode(wire: Seq<u8>)
    requires
        parse(wire) is Ok,
    ensures
        parse(wire)->Ok_0.fits(),
        parse(wire)->Ok_0.wire() == wire,
{
    let frame = parse(wire)->Ok_0;
    let covered = wire.len() - CRC_LEN;
    let crc_bytes = wire.skip(covered);
    bytes::lemma_pow256_values();
    bytes::law_le_bytes_of_le_value(wire.subrange(2, 4));
    bytes::law_le_bytes_of_le_value(wire.subrange(9, 11));
    bytes::law_le_bytes_of_le_value(wire.subrange(12, 20));
    bytes::law_le_bytes_of_le_value(crc_bytes);
    lemma_header_len(frame);
    let header = frame.header();
    assert(header =~= wire.take(HEADER_LEN as int)) by {
        assert(header.subrange(2, 4) =~= wire.subrange(2, 4));
        assert(header.subrange(9, 11) =~= wire.subrange(9, 11));
        assert(header.subrange(12, 20) =~= wire.subrange(12, 20));
        assert forall|i: int| 0 <= i < HEADER_LEN implies header[i] == wire[i] by {
            if 2 <= i < 4 {
                assert(header.subrange(2, 4)[i - 2] == wire.subrange(2, 4)[i - 2]);
            } else if 9 <= i < 11 {
                assert(header.subrange(9, 11)[i - 9] == wire.subrange(9, 11)[i - 9]);
            } else if 12 <= i < 20 {
                assert(header.subrange(12, 20)[i - 12] == wire.subrange(12, 20)[i - 12]);
            }
        }
    }
    assert(frame.body() =~= wire.take(covered));
    assert(frame.wire() =~= wire);
}

/// No single corrupted byte goes unnoticed; one in the payload or in the
/// checksum is reported as a bad checksum.
pub proof fn law_decode_rejects_one_corrupted_byte(frame: FrameView, i: int, byte: u8)
    requires
        frame.fits(),
        0 <= i < frame.wire().len(),
        byte != frame.wire()[i],
    ensures
        parse(frame.wire().update(i, byte)) is Err,
        i >= HEADER_LEN ==> parse(frame.wire().update(i, byte)) == Err::<FrameView, DecodeError>(
            DecodeError::BadCrc,
        ),
{
    let wire = frame.wire();
    lemma_wire_layout(frame);
    law_decode_undoes_encode(frame);
    lemma_checksum_shows_damage(wire, i, byte);
}

/// Where a checksum is right, it is wrong after one byte was changed.
proof fn lemma_checksum_shows_damage(wire: Seq<u8>, i: int, byte: u8)
    requires
        wire.len() >= CRC_LEN,
        0 <= i < wire.len(),
        byte != wire[i],
        bytes::le_value(wire.skip(wire.len() - CRC_LEN)) == crc::crc16(
            wire.take(wire.len() - CRC_LEN),
        ),
    ensures
        ({
            let damaged = wire.update(i, byte);
            bytes::le_value(damaged.skip(wire.len() - CRC_LEN)) != crc::crc16(
                damaged.take(wire.len() - CRC_LEN),
            )
        }),
{
    let covered = wire.len() - CRC_LEN;
    let damaged = wire.update(i, byte);
    let body = wire.take(covered);
    let crc_bytes = wire.skip(covered);
    let damaged_crc = damaged.skip(covered);
    if i < covered {
        assert(damaged_crc =~= crc_bytes);
        assert(damaged.take(covered) =~= body.update(i, byte));
        crc::law_crc16_detects_one_byte(body, i, byte);
    } else {
        assert(damaged.take(covered) =~= body);
        bytes::law_le_bytes_of_le_value(crc_bytes);
        bytes::law_le_bytes_of_le_value(damaged_crc);
        assert(damaged_crc[i - covered] != crc_bytes[i - covered]);
    }
}

/// A frame type is recovered from its wire value, and no other value stands for
/// it.
pub proof fn law_frame_type_wire_value(frame_type: FrameType, value: u8)
    ensures
        FrameType::from_u8(frame_type.to_u8()) == Some(frame_type),
        FrameType::from_u8(value) == Some(frame_type) <==> value == frame_type.to_u8(),
{
}

/// The presence bits of the three roles are distinct, so each role is read back
/// from a mask on its own.
pub proof fn law_presence_bits(mask: u8, role: NodeRole, other: NodeRole)
    ensures
        presence_bit(NodeRole::Relay) == HEARTBEAT_PRESENCE_RELAY,
        presence_bit(NodeRole::Sensor) == HEARTBEAT_PRESENCE_SENSOR,
        (presence_bit(role) & presence_bit(other) != 0) == (role == other),
        ((mask | presence_bit(role)) & presence_bit(other) != 0) == (role == other || mask
            & presence_bit(other) != 0),
{
    assert(1u8 << 1u8 == 2u8 && 1u8 << 2u8 == 4u8 && 1u8 << 3u8 == 8u8) by (bit_vector);
    assert(2u8 & 2u8 == 2u8 && 4u8 & 4u8 == 4u8 && 8u8 & 8u8 == 8u8) by (bit_vector);
    assert(2u8 & 4u8 == 0u8 && 4u8 & 2u8 == 0u8 && 2u8 & 8u8 == 0u8 && 8u8 & 2u8 == 0u8 && 4u8 & 8u8
        == 0u8 && 8u8 & 4u8 == 0u8) by (bit_vector);
    let a = presence_bit(role);
    let b = presence_bit(other);
    assert(((mask | a) & b != 0) == (a & b != 0 || mask & b != 0)) by (bit_vector);
}

/// Each role has the bit of a presence mask that its node identifier numbers: bit 1
/// for the gateway, bit 2 for the relay, bit 3 for the sensor. A role is present in
/// a mask exactly if its bit is set.
pub proof fn law_presence_is_a_bit(mask: u8, role: NodeRole)
    ensures
        presence_bit(role) == (match role {
            NodeRole::Gateway => 2u8,
            NodeRole::Relay => 4u8,
            NodeRole::Sensor => 8u8,
        }),
        (mask & presence_bit(role) != 0) == (mask as int / presence_bit(role) as int % 2 == 1),
{
    assert(1u8 << 1u8 == 2u8 && 1u8 << 2u8 == 4u8 && 1u8 << 3u8 == 8u8) by (bit_vector);
    assert((mask & 2u8 != 0) == (mask / 2u8 % 2u8 == 1u8)) by (bit_vector);
    assert((mask & 4u8 != 0) == (mask / 4u8 % 2u8 == 1u8)) by (bit_vector);
    assert((mask & 8u8 != 0) == (mask / 8u8 % 2u8 == 1u8)) by (bit_vector);
}

} // verus!
