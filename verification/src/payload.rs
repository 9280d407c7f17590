//! Payloads of the frame types: how each is laid out, written and read.

use vstd::prelude::*;

use crate::buffers::{payload_extend, payload_new, payload_push, Payload, MAX_PAYLOAD_LEN};
use crate::bytes::{u16_from_le, u16_to_le, u32_from_le, u32_to_le};
use crate::error::EncodeError;
use crate::protocol::FrameType;
use crate::{buffers, bytes};

verus! {

/// The 16 bits of a signed number, in two's complement.
pub open spec fn i16_bits(x: i16) -> nat {
    if x < 0 {
        (x + 0x1_0000) as nat
    } else {
        x as nat
    }
}

/// The signed number that 16 bits stand for, in two's complement.
pub open spec fn i16_of_bits(bits: nat) -> i16 {
    if bits < 0x8000 {
        bits as i16
    } else {
        (bits - 0x1_0000) as i16
    }
}

/// Layout of a HELLO payload: parent, or 0 where there is none, and slot.
pub open spec fn hello_bytes(parent_id: Option<u8>, slot_id: u8) -> Seq<u8> {
    seq![
        match parent_id {
            Some(id) => id,
            None => 0,
        },
        slot_id,
    ]
}

/// Layout of a JOIN_ACK payload.
pub open spec fn join_ack_bytes(parent_id: u8, hop: u8, slot_id: u8) -> Seq<u8> {
    seq![parent_id, hop, slot_id]
}

/// Layout of a SYNC payload. Of the two window lengths only the low 16 bits are
/// carried.
pub open spec fn sync_bytes(
    sync_seq: u16,
    schedule_version: u8,
    superframe_ms: u32,
    slot_ms: u32,
    guard_before_ms: u32,
    active_ms: u32,
) -> Seq<u8> {
    bytes::le_bytes(sync_seq as nat, 2) + seq![schedule_version] + bytes::le_bytes(
        superframe_ms as nat,
        4,
    ) + bytes::le_bytes(slot_ms as nat, 4) + bytes::le_bytes(guard_before_ms as nat, 2)
        + bytes::le_bytes(active_ms as nat, 2)
}

/// Layout of a DATA or ALARM payload.
pub open spec fn data_bytes(
    origin_id: u8,
    origin_seq: u16,
    temp_centi_c: i16,
    humidity_centi_percent: u16,
) -> Seq<u8> {
    seq![origin_id] + bytes::le_bytes(origin_seq as nat, 2) + bytes::le_bytes(
        i16_bits(temp_centi_c),
        2,
    ) + bytes::le_bytes(humidity_centi_percent as nat, 2)
}

/// Layout of an ACK payload.
pub open spec fn ack_bytes(acked_seq: u16, acked_type: FrameType) -> Seq<u8> {
    bytes::le_bytes(acked_seq as nat, 2) + seq![acked_type.to_u8()]
}

/// Layout of a HEARTBEAT payload.
pub open spec fn heartbeat_bytes(slot_id: u8, hop: u8, sync_seq: u16, presence_mask: u8) -> Seq<
    u8,
> {
    seq![slot_id, hop] + bytes::le_bytes(sync_seq as nat, 2) + seq![presence_mask]
}

/// What a JOIN_ACK payload says: parent, hop and slot.
pub open spec fn read_join_ack(payload: Seq<u8>) -> Option<(u8, u8, u8)> {
    if payload.len() < 3 {
        None
    } else {
        Some((payload[0], payload[1], payload[2]))
    }
}

/// What a SYNC payload says: sync sequence number, schedule version, superframe,
/// slot, leading guard and active window.
pub open spec fn read_sync(payload: Seq<u8>) -> Option<(u16, u8, u32, u32, u32, u32)> {
    if payload.len() < 15 {
        None
    } else {
        Some(
            (
                bytes::le_value(payload.subrange(0, 2)) as u16,
                payload[2],
                bytes::le_value(payload.subrange(3, 7)) as u32,
                bytes::le_value(payload.subrange(7, 11)) as u32,
                bytes::le_value(payload.subrange(11, 13)) as u32,
                bytes::le_value(payload.subrange(13, 15)) as u32,
            ),
        )
    }
}

/// What a DATA or ALARM payload says: origin, origin sequence number,
/// temperature and humidity.
pub open spec fn read_data(payload: Seq<u8>) -> Option<(u8, u16, i16, u16)> {
    if payload.len() < 7 {
        None
    } else {
        Some(
            (
                payload[0],
                bytes::le_value(payload.subrange(1, 3)) as u16,
                i16_of_bits(bytes::le_value(payload.subrange(3, 5))),
                bytes::le_value(payload.subrange(5, 7)) as u16,
            ),
        )
    }
}

/// What an ACK payload says: sequence number and type of the acknowledged
/// frame.
pub open spec fn read_ack(payload: Seq<u8>) -> Option<(u16, FrameType)> {
    if payload.len() < 3 {
        None
    } else {
        match FrameType::from_u8(payload[2]) {
            Some(acked_type) => Some(
                (bytes::le_value(payload.subrange(0, 2)) as u16, acked_type),
            ),
            None => None,
        }
    }
}

/// What a HEARTBEAT payload says: slot, hop, sync sequence number and presence
/// mask. A payload that ends before the mask has an empty one.
pub open spec fn read_heartbeat(payload: Seq<u8>) -> Option<(u8, u8, u16, u8)> {
    if payload.len() < 4 {
        None
    } else {
        Some(
            (
                payload[0],
                payload[1],
                bytes::le_value(payload.subrange(2, 4)) as u16,
                if payload.len() > 4 {
                    payload[4]
                } else {
                    0
                },
            ),
        )
    }
}

/// Append one byte to a payload.
fn push(out: &mut Payload, byte: u8) -> (pushed: Result<(), EncodeError>)
    ensures
        buffers::payload_bytes(*old(out)).len() < MAX_PAYLOAD_LEN ==> pushed is Ok
            && buffers::payload_bytes(*final(out)) == buffers::payload_bytes(*old(out)).push(byte),
        buffers::payload_bytes(*old(out)).len() >= MAX_PAYLOAD_LEN ==> pushed == Result::<
            (),
            EncodeError,
        >::Err(EncodeError::FrameTooLong) && buffers::payload_bytes(*final(out))
            == buffers::payload_bytes(*old(out)),
{
    match payload_push(out, byte) {
        Ok(()) => Ok(()),
        Err(_) => Err(EncodeError::FrameTooLong),
    }
}

/// Append bytes to a payload.
fn extend_payload(out: &mut Payload, bytes: &[u8]) -> (extended: Result<(), EncodeError>)
    ensures
        buffers::payload_bytes(*old(out)).len() + bytes@.len() <= MAX_PAYLOAD_LEN ==> extended is Ok
            && buffers::payload_bytes(*final(out)) == buffers::payload_bytes(*old(out)) + bytes@,
        buffers::payload_bytes(*old(out)).len() + bytes@.len() > MAX_PAYLOAD_LEN ==> extended
            == Result::<(), EncodeError>::Err(EncodeError::PayloadTooLong)
            && buffers::payload_bytes(*final(out)) == buffers::payload_bytes(*old(out)),
{
    match payload_extend(out, bytes) {
        Ok(()) => Ok(()),
        Err(()) => Err(EncodeError::PayloadTooLong),
    }
}

/// Payload of a HELLO. It always fits.
pub fn hello_payload(parent_id: Option<u8>, slot_id: u8) -> (payload: Result<Payload, EncodeError>)
    ensures
        payload matches Ok(out) && buffers::payload_bytes(out) == hello_bytes(parent_id, slot_id),
{
    let mut payload = payload_new();
    push(
        &mut payload,
        match parent_id {
            Some(id) => id,
            None => 0,
        },
    )?;
    push(&mut payload, slot_id)?;
    assert(buffers::payload_bytes(payload) =~= hello_bytes(parent_id, slot_id));
    Ok(payload)
}

/// Payload of a JOIN_ACK. It always fits.
pub fn join_ack_payload(parent_id: u8, hop: u8, slot_id: u8) -> (payload: Result<
    Payload,
    EncodeError,
>)
    ensures
        payload matches Ok(out) && buffers::payload_bytes(out) == join_ack_bytes(
            parent_id,
            hop,
            slot_id,
        ),
{
    let mut payload = payload_new();
    push(&mut payload, parent_id)?;
    push(&mut payload, hop)?;
    push(&mut payload, slot_id)?;
    assert(buffers::payload_bytes(payload) =~= join_ack_bytes(parent_id, hop, slot_id));
    Ok(payload)
}

/// Payload of a SYNC. It always fits.
pub fn sync_payload(
    sync_seq: u16,
    schedule_version: u8,
    superframe_ms: u32,
    slot_ms: u32,
    guard_before_ms: u32,
    active_ms: u32,
) -> (payload: Result<Payload, EncodeError>)
    ensures
        payload matches Ok(out) && buffers::payload_bytes(out) == sync_bytes(
            sync_seq,
            schedule_version,
            superframe_ms,
            slot_ms,
            guard_before_ms,
            active_ms,
        ),
{
    proof {
        bytes::lemma_le_bytes_len(sync_seq as nat, 2);
        bytes::lemma_le_bytes_len(superframe_ms as nat, 4);
        bytes::lemma_le_bytes_len(slot_ms as nat, 4);
        bytes::lemma_le_bytes_len(guard_before_ms as nat, 2);
        bytes::lemma_le_bytes_len(active_ms as nat, 2);
        lemma_low_16_bits(guard_before_ms as nat);
        lemma_low_16_bits(active_ms as nat);
    }
    let mut payload = payload_new();
    extend_payload(&mut payload, &u16_to_le(sync_seq))?;
    push(&mut payload, schedule_version)?;
    extend_payload(&mut payload, &u32_to_le(superframe_ms))?;
    extend_payload(&mut payload, &u32_to_le(slot_ms))?;
    extend_payload(&mut payload, &u16_to_le((guard_before_ms % 0x1_0000) as u16))?;
    extend_payload(&mut payload, &u16_to_le((active_ms % 0x1_0000) as u16))?;
    assert(buffers::payload_bytes(payload) =~= sync_bytes(
        sync_seq,
        schedule_version,
        superframe_ms,
        slot_ms,
        guard_before_ms,
        active_ms,
    ));
    Ok(payload)
}

/// Payload of a DATA or ALARM. It always fits.
pub fn data_payload(
    origin_id: u8,
    origin_seq: u16,
    temp_centi_c: i16,
    humidity_centi_percent: u16,
) -> (payload: Result<Payload, EncodeError>)
    ensures
        payload matches Ok(out) && buffers::payload_bytes(out) == data_bytes(
            origin_id,
            origin_seq,
            temp_centi_c,
            humidity_centi_percent,
        ),
{
    proof {
        bytes::lemma_le_bytes_len(origin_seq as nat, 2);
        bytes::lemma_le_bytes_len(i16_bits(temp_centi_c), 2);
        bytes::lemma_le_bytes_len(humidity_centi_percent as nat, 2);
    }
    let temp_bits: u16 = if temp_centi_c < 0 {
        (temp_centi_c as i32 + 0x1_0000) as u16
    } else {
        temp_centi_c as u16
    };
    let mut payload = payload_new();
    push(&mut payload, origin_id)?;
    extend_payload(&mut payload, &u16_to_le(origin_seq))?;
    extend_payload(&mut payload, &u16_to_le(temp_bits))?;
    extend_payload(&mut payload, &u16_to_le(humidity_centi_percent))?;
    assert(buffers::payload_bytes(payload) =~= data_bytes(
        origin_id,
        origin_seq,
        temp_centi_c,
        humidity_centi_percent,
    ));
    Ok(payload)
}

/// Payload of an ACK. It always fits.
pub fn ack_payload(acked_seq: u16, acked_type: FrameType) -> (payload: Result<Payload, EncodeError>)
    ensures
        payload matches Ok(out) && buffers::payload_bytes(out) == ack_bytes(acked_seq, acked_type),
{
    proof {
        bytes::lemma_le_bytes_len(acked_seq as nat, 2);
    }
    let mut payload = payload_new();
    extend_payload(&mut payload, &u16_to_le(acked_seq))?;
    push(&mut payload, acked_type.to_u8())?;
    assert(buffers::payload_bytes(payload) =~= ack_bytes(acked_seq, acked_type));
    Ok(payload)
}

/// Payload of a HEARTBEAT. It always fits.
pub fn heartbeat_payload(slot_id: u8, hop: u8, sync_seq: u16, presence_mask: u8) -> (payload: Result<
    Payload,
    EncodeError,
>)
    ensures
        payload matches Ok(out) && buffers::payload_bytes(out) == heartbeat_bytes(
            slot_id,
            hop,
            sync_seq,
            presence_mask,
        ),
{
    proof {
        bytes::lemma_le_bytes_len(sync_seq as nat, 2);
    }
    let mut payload = payload_new();
    push(&mut payload, slot_id)?;
    push(&mut payload, hop)?;
    extend_payload(&mut payload, &u16_to_le(sync_seq))?;
    push(&mut payload, presence_mask)?;
    assert(buffers::payload_bytes(payload) =~= heartbeat_bytes(
        slot_id,
        hop,
        sync_seq,
        presence_mask,
    ));
    Ok(payload)
}

/// Read a JOIN_ACK payload.
pub fn decode_join_ack_payload(payload: &[u8]) -> (decoded: Option<(u8, u8, u8)>)
    ensures
        decoded == read_join_ack(payload@),
{
    if payload.len() < 3 {
        return None;
    }
    Some((payload[0], payload[1], payload[2]))
}

/// Read a SYNC payload.
pub fn decode_sync_payload(payload: &[u8]) -> (decoded: Option<(u16, u8, u32, u32, u32, u32)>)
    ensures
        decoded == read_sync(payload@),
{
    if payload.len() < 15 {
        return None;
    }
    Some(
        (
            u16_from_le(payload, 0),
            payload[2],
            u32_from_le(payload, 3),
            u32_from_le(payload, 7),
            u16_from_le(payload, 11) as u32,
            u16_from_le(payload, 13) as u32,
        ),
    )
}

/// Read a DATA or ALARM payload.
pub fn decode_data_payload(payload: &[u8]) -> (decoded: Option<(u8, u16, i16, u16)>)
    ensures
        decoded == read_data(payload@),
{
    if payload.len() < 7 {
        return None;
    }
    let temp_bits: u16 = u16_from_le(payload, 3);
    let temp_centi_c: i16 = if temp_bits < 0x8000 {
        temp_bits as i16
    } else {
        (temp_bits as i32 - 0x1_0000) as i16
    };
    Some((payload[0], u16_from_le(payload, 1), temp_centi_c, u16_from_le(payload, 5)))
}

/// Read an ACK payload.
pub fn decode_ack_payload(payload: &[u8]) -> (decoded: Option<(u16, FrameType)>)
    ensures
        decoded == read_ack(payload@),
{
    if payload.len() < 3 {
        return None;
    }
    let acked_seq: u16 = u16_from_le(payload, 0);
    match FrameType::from_u8(payload[2]) {
        Some(acked_type) => Some((acked_seq, acked_type)),
        None => None,
    }
}

/// Read a HEARTBEAT payload.
pub fn decode_heartbeat_payload(payload: &[u8]) -> (decoded: Option<(u8, u8, u16, u8)>)
    ensures
        decoded == read_heartbeat(payload@),
{
    if payload.len() < 4 {
        return None;
    }
    let presence_mask: u8 = if payload.len() > 4 {
        payload[4]
    } else {
        0
    };
    Some((payload[0], payload[1], u16_from_le(payload, 2), presence_mask))
}

proof fn lemma_low_16_bits(x: nat)
    ensures
        bytes::le_bytes(x % 0x1_0000, 2) == bytes::le_bytes(x, 2),
{
    reveal_with_fuel(bytes::le_bytes, 3);
}

/// A JOIN_ACK payload is read back as it was written.
pub proof fn law_join_ack_payload_read_back(parent_id: u8, hop: u8, slot_id: u8)
    ensures
        read_join_ack(join_ack_bytes(parent_id, hop, slot_id)) == Some((parent_id, hop, slot_id)),
{
}

/// The windows that a SYNC payload can say are shorter than 2^16.
pub proof fn lemma_sync_windows_are_short(payload: Seq<u8>)
    ensures
        read_sync(payload) matches Some((_, _, _, _, guard_before_ms, active_ms))
            ==> guard_before_ms <= 0xffff && active_ms <= 0xffff,
{
    if payload.len() >= 15 {
        bytes::law_le_bytes_of_le_value(payload.subrange(11, 13));
        bytes::law_le_bytes_of_le_value(payload.subrange(13, 15));
        bytes::lemma_pow256_values();
    }
}

/// A SYNC payload is read back as it was written, as long as the two window
/// lengths fit into 16 bits.
pub proof fn law_sync_payload_read_back(
    sync_seq: u16,
    schedule_version: u8,
    superframe_ms: u32,
    slot_ms: u32,
    guard_before_ms: u32,
    active_ms: u32,
)
    requires
        guard_before_ms < 0x1_0000,
        active_ms < 0x1_0000,
    ensures
        read_sync(
            sync_bytes(
                sync_seq,
                schedule_version,
                superframe_ms,
                slot_ms,
                guard_before_ms,
                active_ms,
            ),
        ) == Some(
            (sync_seq, schedule_version, superframe_ms, slot_ms, guard_before_ms, active_ms),
        ),
{
    let payload = sync_bytes(
        sync_seq,
        schedule_version,
        superframe_ms,
        slot_ms,
        guard_before_ms,
        active_ms,
    );
    bytes::lemma_pow256_values();
    bytes::lemma_le_bytes_len(sync_seq as nat, 2);
    bytes::lemma_le_bytes_len(superframe_ms as nat, 4);
    bytes::lemma_le_bytes_len(slot_ms as nat, 4);
    bytes::lemma_le_bytes_len(guard_before_ms as nat, 2);
    bytes::lemma_le_bytes_len(active_ms as nat, 2);
    bytes::law_le_value_of_le_bytes(sync_seq as nat, 2);
    bytes::law_le_value_of_le_bytes(superframe_ms as nat, 4);
    bytes::law_le_value_of_le_bytes(slot_ms as nat, 4);
    bytes::law_le_value_of_le_bytes(guard_before_ms as nat, 2);
    bytes::law_le_value_of_le_bytes(active_ms as nat, 2);
    assert(payload.subrange(0, 2) =~= bytes::le_bytes(sync_seq as nat, 2));
    assert(payload.subrange(3, 7) =~= bytes::le_bytes(superframe_ms as nat, 4));
    assert(payload.subrange(7, 11) =~= bytes::le_bytes(slot_ms as nat, 4));
    assert(payload.subrange(11, 13) =~= bytes::le_bytes(guard_before_ms as nat, 2));
    assert(payload.subrange(13, 15) =~= bytes::le_bytes(active_ms as nat, 2));
}

/// A DATA or ALARM payload is read back as it was written.
pub proof fn law_data_payload_read_back(
    origin_id: u8,
    origin_seq: u16,
    temp_centi_c: i16,
    humidity_centi_percent: u16,
)
    ensures
        read_data(data_bytes(origin_id, origin_seq, temp_centi_c, humidity_centi_percent)) == Some(
            (origin_id, origin_seq, temp_centi_c, humidity_centi_percent),
        ),
{
    let payload = data_bytes(origin_id, origin_seq, temp_centi_c, humidity_centi_percent);
    bytes::lemma_pow256_values();
    bytes::lemma_le_bytes_len(origin_seq as nat, 2);
    bytes::lemma_le_bytes_len(i16_bits(temp_centi_c), 2);
    bytes::lemma_le_bytes_len(humidity_centi_percent as nat, 2);
    bytes::law_le_value_of_le_bytes(origin_seq as nat, 2);
    bytes::law_le_value_of_le_bytes(i16_bits(temp_centi_c), 2);
    bytes::law_le_value_of_le_bytes(humidity_centi_percent as nat, 2);
    assert(payload.subrange(1, 3) =~= bytes::le_bytes(origin_seq as nat, 2));
    assert(payload.subrange(3, 5) =~= bytes::le_bytes(i16_bits(temp_centi_c), 2));
    assert(payload.subrange(5, 7) =~= bytes::le_bytes(humidity_centi_percent as nat, 2));
}

/// An ACK payload is read back as it was written.
pub proof fn law_ack_payload_read_back(acked_seq: u16, acked_type: FrameType)
    ensures
        read_ack(ack_bytes(acked_seq, acked_type)) == Some((acked_seq, acked_type)),
{
    let payload = ack_bytes(acked_seq, acked_type);
    bytes::lemma_pow256_values();
    bytes::lemma_le_bytes_len(acked_seq as nat, 2);
    bytes::law_le_value_of_le_bytes(acked_seq as nat, 2);
    assert(payload.subrange(0, 2) =~= bytes::le_bytes(acked_seq as nat, 2));
}

/// A HEARTBEAT payload is read back as it was written, and one that lacks the
/// presence mask is read as having an empty mask.
pub proof fn law_heartbeat_payload_read_back(
    slot_id: u8,
    hop: u8,
    sync_seq: u16,
    presence_mask: u8,
)
    ensures
        read_heartbeat(heartbeat_bytes(slot_id, hop, sync_seq, presence_mask)) == Some(
            (slot_id, hop, sync_seq, presence_mask),
        ),
        read_heartbeat(heartbeat_bytes(slot_id, hop, sync_seq, presence_mask).take(4)) == Some(
            (slot_id, hop, sync_seq, 0u8),
        ),
{
    let payload = heartbeat_bytes(slot_id, hop, sync_seq, presence_mask);
    bytes::lemma_pow256_values();
    bytes::lemma_le_bytes_len(sync_seq as nat, 2);
    bytes::law_le_value_of_le_bytes(sync_seq as nat, 2);
    assert(payload.subrange(2, 4) =~= bytes::le_bytes(sync_seq as nat, 2));
    assert(payload.take(4).subrange(2, 4) =~= bytes::le_bytes(sync_seq as nat, 2));
}

} // verus!
