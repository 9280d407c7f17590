//! Nodes, alarms and liveness.

use pipe_net::demo::{
    heartbeat_timeout_ms, AlarmLatch, AlarmTransition, DemoNode, EnvironmentSample, FrameAction,
    GatewayHeartbeatState, GatewayNodeLiveness, NetworkPhase, RelayHeartbeatState,
};
use pipe_net::protocol::{
    decode_data_payload, sync_payload, Frame, FrameType, Payload, HEARTBEAT_PRESENCE_RELAY,
    HEARTBEAT_PRESENCE_SENSOR,
};
use pipe_net::role::{
    select_role, NodeRole, BROADCAST_ID, DEMO_ZONE_ID, GATEWAY_ID, NET_ID, RELAY_ID, SENSOR_ID,
};
use pipe_net::tdma::TdmaSchedule;
use pipe_net::AppError;

fn frame(role: NodeRole, frame_type: FrameType, gateway_time_ms: u64) -> Frame {
    Frame {
        net_id: NET_ID,
        src_id: role.node_id(),
        dst_id: BROADCAST_ID,
        node_role: role,
        zone_id: DEMO_ZONE_ID,
        frame_type,
        seq: 1,
        hop: role.default_hop(),
        gateway_time_ms,
        payload: Payload::new(),
    }
}

/// Let a node hear a SYNC of the demo schedule.
fn apply_sync(node: &mut DemoNode, sync_seq: u16, gateway_time_ms: u64, local_time_ms: u64) {
    let mut sync = frame(NodeRole::Gateway, FrameType::Sync, gateway_time_ms);
    sync.payload = sync_payload(sync_seq, 1, 8_000, 1_000, 100, 700).unwrap();
    node.apply_frame(&sync, local_time_ms);
}

#[test]
fn gateway_is_synced_immediately() {
    assert!(DemoNode::new(NodeRole::Gateway).is_synced());
}

#[test]
fn relay_and_sensor_are_unsynced_until_first_sync() {
    let mut node = DemoNode::new(NodeRole::Relay);
    assert!(!node.is_synced());
    apply_sync(&mut node, 1, 1_000, 900);
    assert!(node.is_synced());
}

#[test]
fn unsynced_node_accepts_any_frame() {
    let node = DemoNode::new(NodeRole::Relay);
    // Claims the quiet slot (7); would be rejected once synced.
    assert!(node.accepts_frame_slot(&frame(NodeRole::Sensor, FrameType::Data, 7_200)));
}

#[test]
fn synced_node_enforces_slot_for_periodic_traffic() {
    let mut node = DemoNode::new(NodeRole::Relay);
    apply_sync(&mut node, 1, 1_000, 1_000);
    // Sensor DATA in the sensor slot (2) is accepted; in the quiet slot (7) dropped.
    assert!(node.accepts_frame_slot(&frame(NodeRole::Sensor, FrameType::Data, 2_300)));
    assert!(!node.accepts_frame_slot(&frame(NodeRole::Sensor, FrameType::Data, 7_300)));
}

#[test]
fn synced_node_always_accepts_control_frames() {
    let mut node = DemoNode::new(NodeRole::Sensor);
    apply_sync(&mut node, 1, 1_000, 1_000);
    // SYNC / JOIN_ACK accepted regardless of the slot they claim.
    assert!(node.accepts_frame_slot(&frame(NodeRole::Gateway, FrameType::Sync, 7_500)));
    assert!(node.accepts_frame_slot(&frame(NodeRole::Relay, FrameType::JoinAck, 7_500)));
}

#[test]
fn alarm_accepted_in_both_data_and_retry_slots() {
    let mut node = DemoNode::new(NodeRole::Relay);
    apply_sync(&mut node, 1, 1_000, 1_000);
    // Sensor ALARM: sensor slot (2) for first send, retry slot (4) for retransmit.
    assert!(node.accepts_frame_slot(&frame(NodeRole::Sensor, FrameType::Alarm, 2_300)));
    assert!(node.accepts_frame_slot(&frame(NodeRole::Sensor, FrameType::Alarm, 4_300)));
}

#[test]
fn data_origin_seq_is_independent_from_control_frame_seq() {
    let mut node = DemoNode::new(NodeRole::Sensor);

    assert_eq!(node.make_hello(0).unwrap().seq, 1);
    let data = node.make_data(1_000, 2_500, 4_000).unwrap();
    let (_origin_id, origin_seq, _temp, _humidity) = decode_data_payload(&data.payload).unwrap();

    assert_eq!(data.seq, 2);
    assert_eq!(origin_seq, 1);
}

#[test]
fn data_and_alarm_share_consecutive_origin_sequence() {
    let mut node = DemoNode::new(NodeRole::Sensor);
    let data = node.make_data(1_000, 2_500, 4_000).unwrap();
    let alarm = node.make_alarm(2_000, 3_100, 8_100).unwrap();

    let (_, data_origin_seq, _, _) = decode_data_payload(&data.payload).unwrap();
    let (_, alarm_origin_seq, _, _) = decode_data_payload(&alarm.payload).unwrap();

    assert_eq!(data_origin_seq, 1);
    assert_eq!(alarm_origin_seq, 2);
}

#[test]
fn heartbeat_action_includes_presence_mask() {
    let mut sensor = DemoNode::new(NodeRole::Sensor);
    let mut relay = DemoNode::new(NodeRole::Relay);
    let heartbeat = sensor.make_heartbeat(1_000).unwrap();

    assert_eq!(
        relay.apply_frame(&heartbeat, 1_000),
        FrameAction::Heartbeat {
            slot_id: NodeRole::Sensor.default_slot(),
            hop: NodeRole::Sensor.default_hop(),
            sync_seq: 0,
            presence_mask: HEARTBEAT_PRESENCE_SENSOR,
        }
    );
}

#[test]
fn relay_presence_reports_recent_sensor_only_until_timeout() {
    let schedule = TdmaSchedule::demo();
    let timeout_ms = heartbeat_timeout_ms(schedule);
    let mut state = RelayHeartbeatState::new();

    assert_eq!(state.presence_mask(1_000, schedule), HEARTBEAT_PRESENCE_RELAY);

    state.record_sensor_heartbeat(1_000);
    assert_eq!(
        state.presence_mask(1_000 + timeout_ms, schedule),
        HEARTBEAT_PRESENCE_RELAY | HEARTBEAT_PRESENCE_SENSOR
    );
    assert_eq!(
        state.presence_mask(1_000 + timeout_ms + 1, schedule),
        HEARTBEAT_PRESENCE_RELAY
    );
}

#[test]
fn gateway_presence_status_changes_on_heartbeat_and_timeout() {
    let schedule = TdmaSchedule::demo();
    let timeout_ms = heartbeat_timeout_ms(schedule);
    let mut state = GatewayHeartbeatState::new();

    let relay_online = state
        .record_relay_heartbeat(HEARTBEAT_PRESENCE_RELAY, 1_000, schedule)
        .unwrap();
    assert_eq!(relay_online.relay, GatewayNodeLiveness::Online);
    assert_eq!(relay_online.sensor, GatewayNodeLiveness::Offline);

    let both_online = state
        .record_relay_heartbeat(
            HEARTBEAT_PRESENCE_RELAY | HEARTBEAT_PRESENCE_SENSOR,
            2_000,
            schedule,
        )
        .unwrap();
    assert_eq!(both_online.relay, GatewayNodeLiveness::Online);
    assert_eq!(both_online.sensor, GatewayNodeLiveness::Online);

    let sensor_offline = state
        .record_relay_heartbeat(HEARTBEAT_PRESENCE_RELAY, 2_000 + timeout_ms + 1, schedule)
        .unwrap();
    assert_eq!(sensor_offline.relay, GatewayNodeLiveness::Online);
    assert_eq!(sensor_offline.sensor, GatewayNodeLiveness::Offline);

    let relay_offline = state
        .poll_status_change(2_000 + (timeout_ms * 2) + 2, schedule)
        .unwrap();
    assert_eq!(relay_offline.relay, GatewayNodeLiveness::Offline);
    assert_eq!(relay_offline.sensor, GatewayNodeLiveness::Unknown);
}

#[test]
fn gateway_marks_relay_and_sensor_online_from_relayed_data() {
    let schedule = TdmaSchedule::demo();
    let mut state = GatewayHeartbeatState::new();

    let status = state.record_relayed_sensor_frame(1_000, schedule).unwrap();

    assert_eq!(status.relay, GatewayNodeLiveness::Online);
    assert_eq!(status.sensor, GatewayNodeLiveness::Online);
    assert_eq!(status.relay_last_seen_ms, Some(1_000));
    assert_eq!(status.sensor_last_seen_ms, Some(1_000));
}

#[test]
fn demo_nodes_join_sync_and_deliver_data_across_two_hops() {
    let mut gateway = DemoNode::new(NodeRole::Gateway);
    let mut relay = DemoNode::new(NodeRole::Relay);
    let mut sensor = DemoNode::new(NodeRole::Sensor);

    gateway.mark_joined();

    let relay_hello = relay.make_hello(100).unwrap();
    let relay_join = gateway
        .make_join_ack(relay_hello.src_id, relay_hello.node_role, 110)
        .unwrap();
    assert_eq!(
        relay.apply_frame(&relay_join, 120),
        FrameAction::Joined {
            parent_id: GATEWAY_ID,
            hop: 1,
            slot_id: NodeRole::Relay.default_slot()
        }
    );
    assert_eq!(relay.phase(), NetworkPhase::Joined);

    let gateway_sync = gateway.make_sync(1_000).unwrap();
    assert!(matches!(
        relay.apply_frame(&gateway_sync, 1_020),
        FrameAction::Synced { sync_seq: 1, .. }
    ));
    assert!(relay.is_synced());

    let sensor_hello = sensor.make_hello(1_100).unwrap();
    let sensor_join = relay
        .make_join_ack(sensor_hello.src_id, sensor_hello.node_role, 1_110)
        .unwrap();
    assert_eq!(
        sensor.apply_frame(&sensor_join, 1_120),
        FrameAction::Joined {
            parent_id: RELAY_ID,
            hop: 2,
            slot_id: NodeRole::Sensor.default_slot()
        }
    );

    let forwarded_sync = relay
        .make_forwarded(&gateway_sync, BROADCAST_ID, 1_200)
        .unwrap();
    assert!(matches!(
        sensor.apply_frame(&forwarded_sync, 1_220),
        FrameAction::Synced { sync_seq: 1, .. }
    ));
    assert!(sensor.is_synced());

    let sensor_data = sensor.make_data(2_300, 2_650, 6_700).unwrap();
    assert_eq!(
        relay.apply_frame(&sensor_data, 2_310),
        FrameAction::Data {
            origin_id: NodeRole::Sensor.node_id(),
            origin_seq: 1,
            temp_centi_c: 2_650,
            humidity_centi_percent: 6_700,
            alarm: false,
        }
    );

    let forwarded_data = relay
        .make_forwarded(&sensor_data, GATEWAY_ID, 3_300)
        .unwrap();
    assert_eq!(
        gateway.apply_frame(&forwarded_data, 3_310),
        FrameAction::Data {
            origin_id: NodeRole::Sensor.node_id(),
            origin_seq: 1,
            temp_centi_c: 2_650,
            humidity_centi_percent: 6_700,
            alarm: false,
        }
    );
}

#[test]
fn new_nodes_start_with_their_role_defaults() {
    for (role, parent, hop, slot) in [
        (NodeRole::Gateway, None, 0, 0),
        (NodeRole::Relay, Some(GATEWAY_ID), 1, 3),
        (NodeRole::Sensor, Some(RELAY_ID), 2, 2),
    ] {
        let node = DemoNode::new(role);
        assert_eq!(node.role(), role);
        assert_eq!(node.parent_id(), parent);
        assert_eq!(node.hop(), hop);
        assert_eq!(node.slot_id(), slot);
        assert_eq!(node.phase(), NetworkPhase::Searching);
        assert_eq!(node.sync_seq(), 0);
        assert_eq!(node.schedule(), TdmaSchedule::demo());
        assert_eq!(node.sync().last_sync_seq, 0);
        assert_eq!(node.sync().hop, hop);
    }
}

#[test]
fn frames_say_where_they_come_from() {
    let mut relay = DemoNode::new(NodeRole::Relay);
    let hello = relay.make_hello(77).unwrap();
    assert_eq!(hello.net_id, NET_ID);
    assert_eq!(hello.src_id, RELAY_ID);
    assert_eq!(hello.dst_id, BROADCAST_ID);
    assert_eq!(hello.node_role, NodeRole::Relay);
    assert_eq!(hello.zone_id, DEMO_ZONE_ID);
    assert_eq!(hello.frame_type, FrameType::Hello);
    assert_eq!(hello.hop, 1);
    assert_eq!(hello.gateway_time_ms, 77);
    assert_eq!(&hello.payload[..], &[GATEWAY_ID, 3]);
    let heartbeat = relay.make_heartbeat_with_presence(78, 12).unwrap();
    assert_eq!(heartbeat.dst_id, GATEWAY_ID);
    assert_eq!(heartbeat.seq, 1);
    assert_eq!(&heartbeat.payload[..], &[3, 1, 0, 0, 12]);
    assert_eq!(relay.next_seq(), 2);
    assert_eq!(relay.next_data_seq(), 1);
    assert_eq!(relay.next_heartbeat_seq(), 2);
    let ack = relay.make_ack(SENSOR_ID, 9, FrameType::Alarm, 80).unwrap();
    assert_eq!((ack.seq, ack.dst_id), (3, SENSOR_ID));
}

#[test]
fn gateway_reading_goes_to_all() {
    let mut gateway = DemoNode::new(NodeRole::Gateway);
    assert_eq!(gateway.make_alarm(0, 1, 2).unwrap().dst_id, BROADCAST_ID);
}

#[test]
fn first_sync_sets_clock_and_later_ones_smooth_it() {
    let mut node = DemoNode::new(NodeRole::Sensor);
    apply_sync(&mut node, 1, 1_800, 1_000);
    assert_eq!(node.sync().offset_ms, 800);
    assert_eq!(node.gateway_time_ms(2_000), 2_800);
    assert_eq!(node.sync_seq(), 1);
    apply_sync(&mut node, 2, 3_880, 3_000);
    assert_eq!(node.sync().offset_ms, 810);
    assert_eq!(node.sync().offset_delta_ms, 80);
    assert_eq!(node.sync_seq(), 2);
}

#[test]
fn sync_hands_down_the_schedule() {
    let mut node = DemoNode::new(NodeRole::Relay);
    let mut sync = frame(NodeRole::Gateway, FrameType::Schedule, 500);
    sync.payload = sync_payload(4, 2, 16_000, 2_000, 150, 900).unwrap();
    assert_eq!(
        node.apply_frame(&sync, 400),
        FrameAction::Synced {
            sync_seq: 4,
            offset_ms: 100
        }
    );
    let schedule = node.schedule();
    assert_eq!(schedule.schedule_version, 2);
    assert_eq!(schedule.superframe_ms, 16_000);
    assert_eq!(schedule.slot_ms, 2_000);
    assert_eq!(schedule.guard_before_ms, 150);
    assert_eq!(schedule.active_ms, 900);
    assert_eq!(schedule.sensor_slot, 2);
}

#[test]
fn gateway_ignores_foreign_clocks() {
    let mut gateway = DemoNode::new(NodeRole::Gateway);
    apply_sync(&mut gateway, 5, 99_000, 10);
    assert_eq!(gateway.gateway_time_ms(10), 10);
    assert_eq!(gateway.sync_seq(), 0);
    assert!(gateway.is_synced());
}

#[test]
fn repeats_are_ignored() {
    let mut sensor = DemoNode::new(NodeRole::Sensor);
    let mut relay = DemoNode::new(NodeRole::Relay);
    let data = sensor.make_data(0, 2_000, 5_000).unwrap();
    assert!(matches!(relay.apply_frame(&data, 1), FrameAction::Data { .. }));
    assert_eq!(relay.apply_frame(&data, 2), FrameAction::Ignore);
    let beat = sensor.make_heartbeat(3).unwrap();
    assert!(matches!(relay.apply_frame(&beat, 4), FrameAction::Heartbeat { .. }));
    assert_eq!(relay.apply_frame(&beat, 5), FrameAction::Ignore);
    let next = sensor.make_alarm(6, 3_100, 5_000).unwrap();
    assert!(matches!(
        relay.apply_frame(&next, 7),
        FrameAction::Data {
            origin_seq: 2,
            alarm: true,
            ..
        }
    ));
}

#[test]
fn frames_for_others_are_ignored() {
    let mut relay = DemoNode::new(NodeRole::Relay);
    let mut sync = frame(NodeRole::Gateway, FrameType::Sync, 500);
    sync.payload = sync_payload(4, 2, 16_000, 2_000, 150, 900).unwrap();
    sync.net_id = NET_ID + 1;
    assert_eq!(relay.apply_frame(&sync, 0), FrameAction::Ignore);
    sync.net_id = NET_ID;
    sync.dst_id = SENSOR_ID;
    assert_eq!(relay.apply_frame(&sync, 0), FrameAction::Ignore);
    assert!(!relay.is_synced());
}

#[test]
fn malformed_payloads_are_ignored() {
    for frame_type in [
        FrameType::Hello,
        FrameType::JoinAck,
        FrameType::Sync,
        FrameType::Schedule,
        FrameType::Data,
        FrameType::Alarm,
        FrameType::Ack,
        FrameType::Heartbeat,
    ] {
        let mut relay = DemoNode::new(NodeRole::Relay);
        let empty = frame(NodeRole::Sensor, frame_type, 0);
        assert_eq!(relay.apply_frame(&empty, 0), FrameAction::Ignore);
    }
}

#[test]
fn ack_is_read() {
    let mut gateway = DemoNode::new(NodeRole::Gateway);
    let mut relay = DemoNode::new(NodeRole::Relay);
    let ack = gateway.make_ack(RELAY_ID, 12, FrameType::Alarm, 5).unwrap();
    assert_eq!(
        relay.apply_frame(&ack, 6),
        FrameAction::Ack {
            acked_seq: 12,
            acked_type: FrameType::Alarm
        }
    );
}

#[test]
fn encode_for_lora_encodes() {
    let mut relay = DemoNode::new(NodeRole::Relay);
    let hello = relay.make_hello(5).unwrap();
    let encoded = DemoNode::encode_for_lora(&hello).unwrap();
    assert_eq!(Frame::decode(&encoded), Ok(hello));
}

#[test]
fn node_clone_is_independent() {
    let mut node = DemoNode::new(NodeRole::Sensor);
    node.next_seq();
    let mut copy = node.clone();
    assert_eq!(copy.next_seq(), 2);
    assert_eq!(node.next_seq(), 2);
}

#[test]
fn sequence_numbers_wrap_around() {
    let mut node = DemoNode::new(NodeRole::Sensor);
    for _ in 0..65_535u32 {
        node.next_seq();
    }
    assert_eq!(node.next_seq(), 0);
    assert_eq!(node.next_seq(), 1);
}

#[test]
fn alarm_has_hysteresis() {
    let mut latch = AlarmLatch::new();
    let at = |temp_centi_c: i16, humidity_centi_percent: u16| EnvironmentSample {
        temp_centi_c,
        humidity_centi_percent,
    };
    assert_eq!(latch.update(at(2_999, 7_999), 3_000, 8_000, 2_900, 7_500), AlarmTransition::Unchanged);
    assert!(!latch.is_active());
    assert_eq!(latch.update(at(3_000, 0), 3_000, 8_000, 2_900, 7_500), AlarmTransition::Raised);
    assert_eq!(latch.update(at(2_900, 0), 3_000, 8_000, 2_900, 7_500), AlarmTransition::Unchanged);
    assert_eq!(latch.update(at(2_899, 7_500), 3_000, 8_000, 2_900, 7_500), AlarmTransition::Unchanged);
    assert!(latch.is_active());
    assert_eq!(latch.update(at(2_899, 7_499), 3_000, 8_000, 2_900, 7_500), AlarmTransition::Cleared);
    assert_eq!(latch.update(at(0, 8_000), 3_000, 8_000, 2_900, 7_500), AlarmTransition::Raised);
    assert!(!AlarmLatch::default().is_active());
}

#[test]
fn samples_know_the_alarm_thresholds() {
    let normal = EnvironmentSample::normal();
    assert_eq!((normal.temp_centi_c, normal.humidity_centi_percent), (2_480, 6_250));
    assert!(!normal.is_alarm());
    assert!(normal.is_alarm_with(2_480, 9_000));
    assert!(normal.is_alarm_with(9_000, 6_250));
    assert!(!normal.is_alarm_with(2_481, 6_251));
    assert_eq!(EnvironmentSample::TEMP_ALARM_CENTI_C, 3_000);
    assert_eq!(EnvironmentSample::HUMIDITY_ALARM_CENTI_PERCENT, 8_000);
}

#[test]
fn status_is_reported_once() {
    let schedule = TdmaSchedule::demo();
    let mut state = GatewayHeartbeatState::default();
    assert_eq!(state.poll_status_change(0, schedule), None);
    assert!(state.record_relayed_sensor_frame(10, schedule).is_some());
    assert_eq!(state.record_relayed_sensor_frame(20, schedule), None);
    assert_eq!(state.poll_status_change(8_720, schedule), None);
    assert!(state.poll_status_change(8_721, schedule).is_some());
    assert_eq!(heartbeat_timeout_ms(schedule), 8_700);
    assert_eq!(GatewayNodeLiveness::Online.label(), "ONLINE");
    assert_eq!(GatewayNodeLiveness::Offline.label(), "OFFLINE");
    assert_eq!(GatewayNodeLiveness::Unknown.label(), "UNKNOWN");
}

#[test]
fn relay_counts_its_sensor_as_online() {
    let schedule = TdmaSchedule::demo();
    let mut state = RelayHeartbeatState::default();
    assert!(!state.sensor_online(0, schedule));
    state.record_sensor_seen(5_000);
    assert!(state.sensor_online(13_700, schedule));
    assert!(!state.sensor_online(13_701, schedule));
    assert!(state.sensor_online(0, schedule));
}

#[test]
fn one_role_has_to_be_selected() {
    assert_eq!(select_role(true, false, false), Ok(NodeRole::Gateway));
    assert_eq!(select_role(false, true, false), Ok(NodeRole::Relay));
    assert_eq!(select_role(false, false, true), Ok(NodeRole::Sensor));
    assert_eq!(select_role(false, false, false), Err(AppError::InvalidRoleFeatureSet));
    assert_eq!(select_role(true, true, false), Err(AppError::InvalidRoleFeatureSet));
    assert_eq!(select_role(true, true, true), Err(AppError::InvalidRoleFeatureSet));
    assert_eq!(NodeRole::from_u8(3), Some(NodeRole::Sensor));
    assert_eq!(NodeRole::from_u8(0), None);
    assert_eq!(NodeRole::Relay.label(), "relay");
}
