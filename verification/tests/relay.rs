//! The relay's buffer and the ALARM that waits for its ACK.

use pipe_net::pending::{is_ack_required, origin_seq, PendingAck};
use pipe_net::protocol::{data_payload, Frame, FrameType, Payload};
use pipe_net::relay::{RelayForwardBuffer, RELAY_FORWARD_CAPACITY};
use pipe_net::role::{NodeRole, DEMO_ZONE_ID, GATEWAY_ID, NET_ID, SENSOR_ID};

fn data_frame(seq: u16) -> Frame {
    Frame {
        net_id: NET_ID,
        src_id: SENSOR_ID,
        dst_id: GATEWAY_ID,
        node_role: NodeRole::Sensor,
        zone_id: DEMO_ZONE_ID,
        frame_type: FrameType::Data,
        seq,
        hop: 0,
        gateway_time_ms: 0,
        payload: Payload::new(),
    }
}

fn alarm_frame(seq: u16) -> Frame {
    Frame {
        frame_type: FrameType::Alarm,
        ..data_frame(seq)
    }
}

#[test]
fn new_buffer_is_empty() {
    let buf = RelayForwardBuffer::new();
    assert!(!buf.has_pending());
    assert!(buf.is_empty());
    assert_eq!(buf.len(), 0);
}

#[test]
fn take_returns_frames_in_fifo_order() {
    let mut buf = RelayForwardBuffer::new();
    buf.remember(&data_frame(1));
    buf.remember(&data_frame(2));
    buf.remember(&data_frame(3));

    assert_eq!(buf.len(), 3);
    assert_eq!(buf.take().map(|f| f.seq), Some(1));
    assert_eq!(buf.take().map(|f| f.seq), Some(2));
    assert_eq!(buf.take().map(|f| f.seq), Some(3));
    assert_eq!(buf.take(), None);
    assert!(!buf.has_pending());
}

#[test]
fn overflow_drops_oldest_keeps_newest() {
    let mut buf = RelayForwardBuffer::new();
    // Push one more than capacity; the very first frame must be evicted.
    for seq in 1..=(RELAY_FORWARD_CAPACITY as u16 + 1) {
        buf.remember(&data_frame(seq));
    }

    assert_eq!(buf.len(), RELAY_FORWARD_CAPACITY);
    // Oldest (seq=1) was dropped; queue holds seq=2..=CAP+1 in order.
    assert_eq!(buf.take().map(|f| f.seq), Some(2));
    let mut last = 2;
    while let Some(frame) = buf.take() {
        assert_eq!(frame.seq, last + 1);
        last = frame.seq;
    }
    assert_eq!(last, RELAY_FORWARD_CAPACITY as u16 + 1);
}

#[test]
fn sustained_overflow_keeps_only_newest_capacity_frames() {
    let mut buf = RelayForwardBuffer::new();
    for seq in 1..=20u16 {
        buf.remember(&data_frame(seq));
    }
    assert_eq!(buf.len(), RELAY_FORWARD_CAPACITY);
    let first = buf.take().map(|f| f.seq).unwrap();
    assert_eq!(first, 20 - RELAY_FORWARD_CAPACITY as u16 + 1);
}

#[test]
fn default_buffer_is_empty_and_frames_are_kept_whole() {
    let mut buf = RelayForwardBuffer::default();
    let mut frame = data_frame(9);
    frame.payload = data_payload(3, 4, -12, 99).unwrap();
    buf.remember(&frame);
    assert!(buf.has_pending());
    assert_eq!(buf.take(), Some(frame));
    assert!(buf.is_empty());
}

#[test]
fn only_alarms_wait_for_an_ack() {
    assert!(is_ack_required(FrameType::Alarm));
    for frame_type in [
        FrameType::Hello,
        FrameType::JoinAck,
        FrameType::Sync,
        FrameType::Schedule,
        FrameType::Data,
        FrameType::Ack,
        FrameType::Heartbeat,
    ] {
        assert!(!is_ack_required(frame_type));
    }
    let mut pending = PendingAck::default();
    pending.remember(&data_frame(1), 0);
    assert!(!pending.has_pending());
    pending.remember(&alarm_frame(2), 0);
    assert!(pending.has_pending());
}

#[test]
fn alarm_is_sent_three_times_at_most() {
    let mut pending = PendingAck::new();
    pending.remember(&alarm_frame(7), 1_000);

    assert_eq!(pending.next_retry(2_999), None);
    assert_eq!(pending.next_retry(3_000), Some((alarm_frame(7), 2)));
    assert_eq!(pending.next_retry(4_999), None);
    assert_eq!(pending.next_retry(5_000), Some((alarm_frame(7), 3)));
    assert!(!pending.is_exhausted(6_999));
    assert_eq!(pending.next_retry(7_000), None);
    assert!(pending.is_exhausted(7_000));
    assert_eq!(pending.drop_exhausted(), Some((7, FrameType::Alarm)));
    assert!(!pending.has_pending());
    assert_eq!(pending.drop_exhausted(), None);
    assert!(!pending.is_exhausted(100_000));
}

#[test]
fn ack_ends_waiting_only_if_it_matches() {
    let mut pending = PendingAck::new();
    assert!(!pending.clear_if_matches(7, FrameType::Alarm));
    pending.remember(&alarm_frame(7), 0);
    assert!(!pending.clear_if_matches(8, FrameType::Alarm));
    assert!(!pending.clear_if_matches(7, FrameType::Data));
    assert!(pending.has_pending());
    assert!(pending.clear_if_matches(7, FrameType::Alarm));
    assert!(!pending.has_pending());
    assert_eq!(pending.next_retry(1_000_000), None);
}

#[test]
fn cancelling_drops_a_waiting_alarm() {
    let mut pending = PendingAck::new();
    assert!(!pending.cancel_if_matches(FrameType::Alarm));
    pending.remember(&alarm_frame(7), 0);
    assert!(!pending.cancel_if_matches(FrameType::Data));
    assert!(pending.cancel_if_matches(FrameType::Alarm));
    assert!(!pending.has_pending());
}

#[test]
fn origin_seq_comes_from_the_payload() {
    let mut frame = data_frame(5);
    assert_eq!(origin_seq(&frame), 5);
    frame.payload = data_payload(3, 900, 0, 0).unwrap();
    assert_eq!(origin_seq(&frame), 900);
}
