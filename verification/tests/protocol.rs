//! Frames on the wire and in a noisy stream.

use pipe_net::crc::crc16_ccitt;
use pipe_net::protocol::{
    ack_payload, data_payload, decode_ack_payload, decode_data_payload, decode_heartbeat_payload,
    decode_join_ack_payload, decode_sync_payload, heartbeat_payload, heartbeat_presence_contains,
    heartbeat_presence_for_role, hello_payload, join_ack_payload, sync_payload, DecodeError,
    EncodeError, EncodedFrame, Frame, FrameStreamDecoder, FrameType, StreamDecodeError, CRC_LEN,
    HEADER_LEN, HEARTBEAT_PRESENCE_RELAY, HEARTBEAT_PRESENCE_SENSOR, MAGIC, MAX_FRAME_LEN,
    MAX_PAYLOAD_LEN, RX_BUFFER_LEN, VERSION,
};
use pipe_net::role::{NodeRole, DEMO_ZONE_ID, NET_ID, RELAY_ID, SENSOR_ID};
use pipe_net::{AppError, AppResult};

fn sample_frame(seq: u16) -> Frame {
    Frame {
        net_id: NET_ID,
        src_id: SENSOR_ID,
        dst_id: RELAY_ID,
        node_role: NodeRole::Sensor,
        zone_id: DEMO_ZONE_ID,
        frame_type: FrameType::Data,
        seq,
        hop: 2,
        gateway_time_ms: 12_345,
        payload: data_payload(SENSOR_ID, seq, 2_513, 6_481).unwrap(),
    }
}

/// The frame `encoded` with another byte at `index`, and a checksum that fits.
fn resealed(encoded: &EncodedFrame, index: usize, byte: u8) -> Vec<u8> {
    let mut bytes: Vec<u8> = encoded.to_vec();
    bytes[index] = byte;
    let covered = bytes.len() - CRC_LEN;
    let crc = crc16_ccitt(&bytes[..covered]);
    bytes[covered] = (crc & 0xff) as u8;
    bytes[covered + 1] = (crc >> 8) as u8;
    bytes
}

#[test]
fn frame_encode_decode_roundtrip_preserves_fields() {
    let frame = sample_frame(7);
    let encoded = frame.encode().unwrap();

    assert_eq!(encoded[0], MAGIC);
    assert_eq!(encoded[1], VERSION);
    assert_eq!(encoded.len(), HEADER_LEN + frame.payload.len() + CRC_LEN);
    assert_eq!(Frame::decode(&encoded).unwrap(), frame);
}

#[test]
fn decode_rejects_bad_crc() {
    let mut encoded = sample_frame(1).encode().unwrap();
    let payload_byte = HEADER_LEN;
    encoded[payload_byte] ^= 0x55;

    assert_eq!(Frame::decode(&encoded), Err(DecodeError::BadCrc));
}

#[test]
fn stream_decoder_waits_for_split_frame() {
    let encoded = sample_frame(2).encode().unwrap();
    let split_at = 8;
    let mut decoder = FrameStreamDecoder::new();

    decoder.push_bytes(&encoded[..split_at]).unwrap();
    assert_eq!(decoder.next_frame().unwrap(), None);
    assert_eq!(decoder.buffered_len(), split_at);

    decoder.push_bytes(&encoded[split_at..]).unwrap();
    assert_eq!(decoder.next_frame().unwrap(), Some(sample_frame(2)));
    assert_eq!(decoder.buffered_len(), 0);
}

#[test]
fn stream_decoder_discards_noise_before_magic() {
    let encoded = sample_frame(3).encode().unwrap();
    let mut decoder = FrameStreamDecoder::new();

    decoder.push_bytes(&[0, 1, 2, MAGIC - 1]).unwrap();
    decoder.push_bytes(&encoded).unwrap();

    assert_eq!(decoder.next_frame().unwrap(), Some(sample_frame(3)));
    assert_eq!(decoder.buffered_len(), 0);
}

#[test]
fn stream_decoder_returns_sticky_frames_one_at_a_time() {
    let first = sample_frame(4).encode().unwrap();
    let second = sample_frame(5).encode().unwrap();
    let mut decoder = FrameStreamDecoder::new();

    decoder.push_bytes(&first).unwrap();
    decoder.push_bytes(&second).unwrap();

    assert_eq!(decoder.next_frame().unwrap(), Some(sample_frame(4)));
    assert_eq!(decoder.next_frame().unwrap(), Some(sample_frame(5)));
    assert_eq!(decoder.next_frame().unwrap(), None);
}

#[test]
fn stream_decoder_resyncs_after_bad_crc() {
    let mut bad = sample_frame(6).encode().unwrap();
    let good = sample_frame(7).encode().unwrap();
    let crc_byte = bad.len() - 1;
    bad[crc_byte] ^= 0xaa;

    let mut decoder = FrameStreamDecoder::new();
    decoder.push_bytes(&bad).unwrap();
    decoder.push_bytes(&good).unwrap();

    assert_eq!(decoder.next_frame().unwrap(), Some(sample_frame(7)));
    assert_eq!(decoder.buffered_len(), 0);
}

#[test]
fn stream_decoder_clears_buffer_on_overflow() {
    let mut decoder = FrameStreamDecoder::new();
    let bytes = [0x55; RX_BUFFER_LEN + 1];

    assert_eq!(
        decoder.push_bytes(&bytes),
        Err(StreamDecodeError::BufferOverflow)
    );
    assert_eq!(decoder.buffered_len(), 0);
}

#[test]
fn heartbeat_payload_carries_presence_mask() {
    let payload = heartbeat_payload(5, 1, 42, HEARTBEAT_PRESENCE_RELAY).unwrap();

    assert_eq!(
        decode_heartbeat_payload(&payload),
        Some((5, 1, 42, HEARTBEAT_PRESENCE_RELAY))
    );
    assert!(heartbeat_presence_contains(
        HEARTBEAT_PRESENCE_RELAY,
        NodeRole::Relay
    ));
    assert!(!heartbeat_presence_contains(
        HEARTBEAT_PRESENCE_RELAY,
        NodeRole::Sensor
    ));
}

#[test]
fn heartbeat_payload_decoder_accepts_legacy_payload_without_presence() {
    assert_eq!(decode_heartbeat_payload(&[6, 2, 7, 0]), Some((6, 2, 7, 0)));
}

#[test]
fn sizes_add_up() {
    assert_eq!(MAX_PAYLOAD_LEN, 32);
    assert_eq!(HEADER_LEN, 21);
    assert_eq!(CRC_LEN, 2);
    assert_eq!(MAX_FRAME_LEN, 55);
    assert_eq!(RX_BUFFER_LEN, 330);
}

#[test]
fn encoded_frame_has_the_documented_layout() {
    let encoded = sample_frame(0x0102).encode().unwrap();
    let covered = encoded.len() - CRC_LEN;
    let crc = crc16_ccitt(&encoded[..covered]);
    let expected: Vec<u8> = vec![
        0xc3, 1, 0x31, 0x43, 3, 2, 3, 1, 5, 0x02, 0x01, 2, 0x39, 0x30, 0, 0, 0, 0, 0, 0, 7,
        3, 0x02, 0x01, 0xd1, 0x09, 0x51, 0x19,
    ];
    assert_eq!(&encoded[..covered], &expected[..]);
    assert_eq!(encoded[covered], (crc & 0xff) as u8);
    assert_eq!(encoded[covered + 1], (crc >> 8) as u8);
}

#[test]
fn crc16_of_check_string() {
    assert_eq!(crc16_ccitt(b"123456789"), 0x29b1);
    assert_eq!(crc16_ccitt(b""), 0xffff);
}

#[test]
fn decode_reports_each_fault() {
    let encoded = sample_frame(9).encode().unwrap();
    assert_eq!(Frame::decode(&encoded[..22]), Err(DecodeError::TooShort));

    let mut bytes = encoded.to_vec();
    bytes[0] = 0xc4;
    assert_eq!(Frame::decode(&bytes), Err(DecodeError::BadMagic));

    let mut bytes = encoded.to_vec();
    bytes[1] = 2;
    assert_eq!(Frame::decode(&bytes), Err(DecodeError::UnsupportedVersion));

    let mut bytes = encoded.to_vec();
    bytes.push(0);
    assert_eq!(Frame::decode(&bytes), Err(DecodeError::BadLength));

    let mut bytes = vec![0u8; HEADER_LEN + 33 + CRC_LEN];
    bytes[0] = MAGIC;
    bytes[1] = VERSION;
    bytes[20] = 33;
    assert_eq!(Frame::decode(&bytes), Err(DecodeError::PayloadTooLong));

    assert_eq!(
        Frame::decode(&resealed(&encoded, 6, 9)),
        Err(DecodeError::BadRole)
    );
    assert_eq!(
        Frame::decode(&resealed(&encoded, 8, 0)),
        Err(DecodeError::BadFrameType)
    );
}

#[test]
fn longest_payload_survives() {
    let mut frame = sample_frame(1);
    frame.payload.clear();
    for byte in 0..32u8 {
        frame.payload.push(byte).unwrap();
    }
    let encoded = frame.encode().unwrap();
    assert_eq!(encoded.len(), MAX_FRAME_LEN);
    assert_eq!(Frame::decode(&encoded), Ok(frame.clone()));
}

#[test]
fn every_single_corrupted_byte_is_noticed() {
    let encoded = sample_frame(77).encode().unwrap();
    for index in 0..encoded.len() {
        for flip in 1..=255u8 {
            let mut bytes = encoded.to_vec();
            bytes[index] ^= flip;
            assert!(Frame::decode(&bytes).is_err());
        }
    }
}

#[test]
fn decoder_finds_frame_behind_false_start() {
    let encoded = sample_frame(8).encode().unwrap();
    let mut bytes = vec![MAGIC, VERSION, MAGIC, 9, MAGIC];
    bytes.extend_from_slice(&encoded);
    let mut decoder = FrameStreamDecoder::default();
    decoder.push_bytes(&bytes).unwrap();
    assert_eq!(decoder.next_frame(), Ok(Some(sample_frame(8))));
    assert_eq!(decoder.buffered_len(), 0);
}

#[test]
fn chunks_do_not_matter() {
    let mut stream: Vec<u8> = vec![1, 2, MAGIC, 0];
    for seq in 1..=4u16 {
        stream.extend_from_slice(&sample_frame(seq).encode().unwrap());
        stream.push(0x11);
    }
    for size in 1..=stream.len() {
        let mut decoder = FrameStreamDecoder::new();
        let mut seen: Vec<u16> = Vec::new();
        for chunk in stream.chunks(size) {
            decoder.push_bytes(chunk).unwrap();
            while let Some(frame) = decoder.next_frame().unwrap() {
                seen.push(frame.seq);
            }
        }
        assert_eq!(seen, vec![1, 2, 3, 4]);
        assert_eq!(decoder.buffered_len(), 0);
    }
}

#[test]
fn overflow_drops_what_was_buffered() {
    let mut decoder = FrameStreamDecoder::new();
    decoder.push_bytes(&[MAGIC; 300]).unwrap();
    assert_eq!(decoder.buffered_len(), 300);
    assert_eq!(
        decoder.push_bytes(&[MAGIC; 31]),
        Err(StreamDecodeError::BufferOverflow)
    );
    assert_eq!(decoder.buffered_len(), 0);
    assert_eq!(decoder.push_bytes(&[MAGIC; 330]), Ok(()));
    assert_eq!(decoder.buffered_len(), 330);
}

#[test]
fn payloads_have_the_documented_layout() {
    assert_eq!(&hello_payload(Some(2), 3).unwrap()[..], &[2, 3]);
    assert_eq!(&hello_payload(None, 0).unwrap()[..], &[0, 0]);
    assert_eq!(&join_ack_payload(1, 2, 3).unwrap()[..], &[1, 2, 3]);
    assert_eq!(
        &sync_payload(0x0201, 7, 8_000, 1_000, 100, 700).unwrap()[..],
        &[1, 2, 7, 0x40, 0x1f, 0, 0, 0xe8, 3, 0, 0, 100, 0, 0xbc, 2]
    );
    assert_eq!(
        &data_payload(3, 0x0102, -5, 6_500).unwrap()[..],
        &[3, 2, 1, 0xfb, 0xff, 0x64, 0x19]
    );
    assert_eq!(&ack_payload(0x0304, FrameType::Alarm).unwrap()[..], &[4, 3, 6]);
    assert_eq!(&heartbeat_payload(2, 1, 5, 12).unwrap()[..], &[2, 1, 5, 0, 12]);
}

#[test]
fn payloads_are_read_back() {
    assert_eq!(
        decode_join_ack_payload(&join_ack_payload(1, 2, 3).unwrap()),
        Some((1, 2, 3))
    );
    assert_eq!(
        decode_sync_payload(&sync_payload(9, 1, 8_000, 1_000, 100, 700).unwrap()),
        Some((9, 1, 8_000, 1_000, 100, 700))
    );
    assert_eq!(
        decode_data_payload(&data_payload(3, 65_535, -32_768, 10_000).unwrap()),
        Some((3, 65_535, -32_768, 10_000))
    );
    assert_eq!(
        decode_ack_payload(&ack_payload(7, FrameType::Schedule).unwrap()),
        Some((7, FrameType::Schedule))
    );
}

#[test]
fn sync_payload_keeps_low_bits_of_windows() {
    let payload = sync_payload(1, 1, 8_000, 1_000, 0x1_0005, 0x2_0006).unwrap();
    assert_eq!(decode_sync_payload(&payload), Some((1, 1, 8_000, 1_000, 5, 6)));
}

#[test]
fn short_payloads_are_not_read() {
    assert_eq!(decode_join_ack_payload(&[1, 2]), None);
    assert_eq!(decode_sync_payload(&[0; 14]), None);
    assert_eq!(decode_data_payload(&[0; 6]), None);
    assert_eq!(decode_ack_payload(&[0, 1]), None);
    assert_eq!(decode_ack_payload(&[0, 1, 9]), None);
    assert_eq!(decode_heartbeat_payload(&[0; 3]), None);
}

#[test]
fn frame_types_have_wire_values_and_labels() {
    let types = [
        (FrameType::Hello, 1, "HELLO"),
        (FrameType::JoinAck, 2, "JOIN_ACK"),
        (FrameType::Sync, 3, "SYNC"),
        (FrameType::Schedule, 4, "SCHEDULE"),
        (FrameType::Data, 5, "DATA"),
        (FrameType::Alarm, 6, "ALARM"),
        (FrameType::Ack, 7, "ACK"),
        (FrameType::Heartbeat, 8, "HEARTBEAT"),
    ];
    for (frame_type, value, label) in types {
        assert_eq!(frame_type.to_u8(), value);
        assert_eq!(FrameType::from_u8(value), Some(frame_type));
        assert_eq!(frame_type.label(), label);
    }
    assert_eq!(FrameType::from_u8(0), None);
    assert_eq!(FrameType::from_u8(9), None);
}

#[test]
fn presence_bits_are_distinct() {
    assert_eq!(heartbeat_presence_for_role(NodeRole::Gateway), 2);
    assert_eq!(heartbeat_presence_for_role(NodeRole::Relay), HEARTBEAT_PRESENCE_RELAY);
    assert_eq!(heartbeat_presence_for_role(NodeRole::Sensor), HEARTBEAT_PRESENCE_SENSOR);
    assert!(heartbeat_presence_contains(12, NodeRole::Relay));
    assert!(heartbeat_presence_contains(12, NodeRole::Sensor));
    assert!(!heartbeat_presence_contains(12, NodeRole::Gateway));
}

#[test]
fn errors_have_messages() {
    assert_eq!(EncodeError::FrameTooLong.message(), "frame buffer too small");
    assert_eq!(EncodeError::PayloadTooLong.message(), "payload buffer too small");
    assert_eq!(
        AppError::from(EncodeError::FrameTooLong).message(),
        "frame encode failed: frame buffer too small"
    );
    assert_eq!(
        AppError::InvalidRoleFeatureSet.message(),
        "enable exactly one role feature: sensor-node, relay-node, or gateway-node"
    );
    assert_eq!(DecodeError::TooShort.message(), "frame is too short");
    assert_eq!(DecodeError::BadMagic.message(), "bad frame magic");
    assert_eq!(DecodeError::UnsupportedVersion.message(), "unsupported frame version");
    assert_eq!(DecodeError::BadLength.message(), "bad frame length");
    assert_eq!(DecodeError::PayloadTooLong.message(), "payload is too long");
    assert_eq!(DecodeError::BadRole.message(), "bad node role");
    assert_eq!(DecodeError::BadFrameType.message(), "bad frame type");
    assert_eq!(
        StreamDecodeError::Decode(DecodeError::BadCrc).message(),
        "stream frame decode failed: bad crc"
    );
    assert_eq!(
        StreamDecodeError::BufferOverflow.message(),
        "RX frame stream buffer overflow"
    );
    let failed: AppResult<Frame> = Err(AppError::from(EncodeError::PayloadTooLong));
    assert_eq!(
        failed.unwrap_err(),
        AppError::FrameEncode(EncodeError::PayloadTooLong)
    );
}
