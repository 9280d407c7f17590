//! Lines that the core task prints.

use pipe_net::alarm::EnvironmentSample;
use pipe_net::core_log::{
    alarm_text, frame_text, out_of_slot_text, sent_text, started_text, timer_text,
};
use pipe_net::demo_log::{
    gateway_heartbeat_text, gateway_rx_data_text, BuzzerAction, GatewayRxDataLog,
};
use pipe_net::liveness::{GatewayJoinStatus, GatewayNodeLiveness};
use pipe_net::node_core::{AlarmReport, FrameReport, NodeCore, TimerReport};
use pipe_net::protocol::{Frame, FrameType, Payload};
use pipe_net::role::{NodeRole, DEMO_ZONE_ID, GATEWAY_ID, NET_ID};
use pipe_net::text::{optional_id_text, reading_text, truth_text};

fn frame(role: NodeRole, frame_type: FrameType, seq: u16) -> Frame {
    Frame {
        net_id: NET_ID,
        src_id: role.node_id(),
        dst_id: GATEWAY_ID,
        node_role: role,
        zone_id: DEMO_ZONE_ID,
        frame_type,
        seq,
        hop: role.default_hop(),
        gateway_time_ms: 5_432,
        payload: Payload::new(),
    }
}

fn after_timer(role: NodeRole, report: TimerReport, first: Option<&Frame>) -> String {
    timer_text(&NodeCore::new(role, 0), report, first, 31)
}

fn after_frame(role: NodeRole, received: &Frame, report: FrameReport) -> String {
    frame_text(NodeCore::new(role, 0).node(), received, report, &vec![], 31, 0)
}

const COLD: EnvironmentSample = EnvironmentSample {
    temp_centi_c: -1_205,
    humidity_centi_percent: 4_907,
};

#[test]
fn readings_show_whole_degrees_with_their_sign() {
    assert_eq!(reading_text(2_661, 5_145), "temp=26.61C humidity=51.45%");
    assert_eq!(reading_text(-1_205, 7), "temp=-12.05C humidity=0.07%");
    assert_eq!(reading_text(-50, 10_000), "temp=0.50C humidity=100.00%");
    assert_eq!(reading_text(i16::MIN, 0), "temp=-327.68C humidity=0.00%");
    assert_eq!(optional_id_text(Some(2)), "Some(2)");
    assert_eq!(optional_id_text(None), "None");
    assert_eq!((truth_text(true), truth_text(false)), ("true", "false"));
}

#[test]
fn start_is_announced() {
    assert_eq!(
        started_text(NodeCore::new(NodeRole::Gateway, 0).node(), &None, 0),
        "gateway online: broadcasting SYNC/SCHEDULE every TDMA superframe\n"
    );
    let mut sensor = NodeCore::new(NodeRole::Sensor, 0);
    let hello = sensor.start(40).unwrap();
    assert_eq!(
        started_text(sensor.node(), &hello, 25),
        "sensor searching: send HELLO seq=1 bytes=25 parent=Some(2)\n\
         sensor searching: preferred_parent=Some(2) hop=2 slot=2\n"
    );
}

#[test]
fn superframe_begins_with_sync_and_status() {
    let status = GatewayJoinStatus {
        relay: GatewayNodeLiveness::Online,
        sensor: GatewayNodeLiveness::Unknown,
        relay_last_seen_ms: Some(1_000),
        sensor_last_seen_ms: None,
    };
    let report = TimerReport::SyncBroadcast {
        sync_seq: 4,
        slot: 0,
        status,
        silence_buzzer: false,
    };
    let sync = frame(NodeRole::Gateway, FrameType::Sync, 9);
    assert_eq!(
        after_timer(NodeRole::Gateway, report, Some(&sync)),
        "\n\n\n====================superframe=======================\n\
         tx SYNC frame_seq=9 sync_seq=4 schedule_v=1 active=700ms guard_before=100ms \
         gateway_time=5432 slot=0 bytes=31\n\
         [JOIN STATUS] gateway_time=00:00:05.432 relay=ONLINE last_seen=00:00:01.000 \
         sensor=UNKNOWN via=relay last_seen=never\n"
    );
    assert_eq!(after_timer(NodeRole::Gateway, report, None), "");
}

#[test]
fn timer_lines_name_what_was_sent() {
    let hello = frame(NodeRole::Relay, FrameType::Hello, 3);
    let alarm = frame(NodeRole::Sensor, FrameType::Alarm, 7);
    let beat = frame(NodeRole::Sensor, FrameType::Heartbeat, 8);
    assert_eq!(after_timer(NodeRole::Relay, TimerReport::Idle, None), "");
    assert_eq!(
        after_timer(NodeRole::Relay, TimerReport::HelloRetried, Some(&hello)),
        "relay searching: retry HELLO seq=3 bytes=31\n"
    );
    assert_eq!(
        after_timer(
            NodeRole::Sensor,
            TimerReport::AlarmRetried { attempt: 2 },
            Some(&alarm)
        ),
        "sensor retry ALARM seq=7 attempt=2 bytes=31\n"
    );
    assert_eq!(
        after_timer(
            NodeRole::Sensor,
            TimerReport::AlarmDropped {
                seq: 7,
                frame_type: FrameType::Alarm
            },
            None
        ),
        "sensor drop ALARM seq=7 after 3 attempts\n"
    );
    assert_eq!(
        after_timer(NodeRole::Relay, TimerReport::SyncForwarded, None),
        "relay control slot: forward SYNC sync_seq=0 offset_ms=0 drift=0ms bytes=31\n"
    );
    assert_eq!(
        after_timer(
            NodeRole::Sensor,
            TimerReport::HeartbeatSent {
                heartbeat_slot: 6,
                presence_mask: 8
            },
            Some(&beat)
        ),
        "sensor tx HEARTBEAT seq=8 parent=Some(2) data_slot=2 heartbeat_slot=6 sync_seq=0 \
         presence=0b00001000 offset_ms=0 drift=0ms bytes=31\n"
    );
    assert_eq!(
        after_timer(
            NodeRole::Sensor,
            TimerReport::ReadingSent { sample: COLD },
            Some(&alarm)
        ),
        "tx ALARM seq=7 parent=Some(2) temp=-12.05C humidity=49.07% gateway_time=5432 bytes=31\n"
    );
    assert_eq!(
        after_timer(NodeRole::Relay, TimerReport::ReadingsForwarded, None),
        "relay slot active: buffered_data=false pending_ack=false parent=Some(1) hop=1 sync_seq=0 \
         offset_ms=0 offset_delta=0ms\n"
    );
}

#[test]
fn forwarded_readings_are_listed_one_by_one() {
    let data = frame(NodeRole::Relay, FrameType::Data, 5);
    let alarm = frame(NodeRole::Relay, FrameType::Alarm, 6);
    assert_eq!(
        sent_text(TimerReport::ReadingsForwarded, &data, 33),
        "relay slot tx buffered DATA origin_seq=5 relay_seq=5 ack_required=false bytes=33\n"
    );
    assert_eq!(
        sent_text(TimerReport::ReadingsForwarded, &alarm, 33),
        "relay slot tx ALARM origin_seq=6 relay_seq=6 ack_required=true bytes=33\n"
    );
    assert_eq!(sent_text(TimerReport::SyncForwarded, &data, 33), "");
}

#[test]
fn sensor_alarm_names_its_thresholds() {
    let hot = EnvironmentSample {
        temp_centi_c: 3_120,
        humidity_centi_percent: 8_500,
    };
    assert_eq!(alarm_text(AlarmReport::Unchanged), "");
    assert_eq!(
        alarm_text(AlarmReport::Raised { sample: hot }),
        "sensor alarm raised: temp=31.20C humidity=85.00% thresholds=3000cC/8000c%\n"
    );
    let cleared = "sensor alarm cleared: temp=-12.05C humidity=49.07% \
                   clear_thresholds=2900cC/7500c%\n";
    assert_eq!(
        alarm_text(AlarmReport::Cleared {
            sample: COLD,
            cancelled: false
        }),
        cleared
    );
    assert_eq!(
        alarm_text(AlarmReport::Cleared {
            sample: COLD,
            cancelled: true
        }),
        format!("sensor alarm cleared locally: cancel pending ALARM retry\n{cleared}")
    );
}

#[test]
fn admissions_name_the_answers() {
    let hello = frame(NodeRole::Relay, FrameType::Hello, 1);
    let ack = frame(NodeRole::Gateway, FrameType::JoinAck, 4);
    let gateway = NodeCore::new(NodeRole::Gateway, 0);
    assert_eq!(
        frame_text(
            gateway.node(),
            &hello,
            FrameReport::ChildAdmitted,
            &vec![ack.clone()],
            28,
            0
        ),
        "rx HELLO from=2 role=relay -> tx JOIN_ACK seq=4 bytes=28\n"
    );
    let hello = frame(NodeRole::Sensor, FrameType::Hello, 1);
    let relay = NodeCore::new(NodeRole::Relay, 0);
    assert_eq!(
        frame_text(
            relay.node(),
            &hello,
            FrameReport::ChildAdmitted,
            &vec![ack, hello.clone()],
            28,
            25
        ),
        "rx sensor HELLO from=3 -> tx JOIN_ACK seq=4 bytes=28\n\
         forward sensor HELLO to gateway: src=3 hop=2 bytes=25\n"
    );
    assert_eq!(
        after_frame(NodeRole::Gateway, &hello, FrameReport::SensorAnnounced),
        "topology: sensor(3) -> relay(2) -> gateway(1)  hop=2\n"
    );
    assert_eq!(
        after_frame(NodeRole::Gateway, &hello, FrameReport::HelloRefused),
        "rx HELLO from=3 role=sensor ignored by gateway: demo topology requires \
         sensor -> relay -> gateway\n"
    );
    assert_eq!(after_frame(NodeRole::Gateway, &hello, FrameReport::ChildAdmitted), "");
}

#[test]
fn relay_names_what_it_keeps() {
    let sync = frame(NodeRole::Gateway, FrameType::Sync, 2);
    let alarm = frame(NodeRole::Sensor, FrameType::Alarm, 7);
    let data = frame(NodeRole::Sensor, FrameType::Data, 8);
    assert_eq!(
        after_frame(
            NodeRole::Relay,
            &sync,
            FrameReport::SyncQueued {
                sync_seq: 12,
                offset_ms: -40
            }
        ),
        "rx SYNC sync_seq=12 offset_ms=-40 drift=0ms -> queued for control slot\n"
    );
    assert_eq!(
        after_frame(
            NodeRole::Relay,
            &alarm,
            FrameReport::AlarmQueued {
                origin_id: 3,
                origin_seq: 5,
                temp_centi_c: 3_120,
                humidity_centi_percent: 8_500
            }
        ),
        "rx ALARM origin=3 origin_seq=5 from=3 temp=31.20C humidity=85.00% alarm=true \
         -> ack_bytes=31 queued_for_relay_slot\n"
    );
    assert_eq!(
        after_frame(
            NodeRole::Relay,
            &data,
            FrameReport::DataBuffered {
                origin_id: 3,
                origin_seq: 6,
                temp_centi_c: 2_661,
                humidity_centi_percent: 5_145
            }
        ),
        "rx DATA origin=3 origin_seq=6 from=3 temp=26.61C humidity=51.45% \
         -> buffered_for_relay_slot\n"
    );
}

#[test]
fn heartbeats_are_shown_by_role() {
    let beat = frame(NodeRole::Sensor, FrameType::Heartbeat, 8);
    let report = FrameReport::HeartbeatReceived {
        slot_id: 2,
        hop: 2,
        sync_seq: 12,
        presence_mask: 8,
    };
    assert_eq!(
        after_frame(NodeRole::Relay, &beat, report),
        "rx HEARTBEAT from=3 reported_data_slot=2 hop=2 sync_seq=12 presence=0b00001000\n"
    );
    assert_eq!(
        after_frame(NodeRole::Gateway, &beat, report),
        gateway_heartbeat_text(&beat, 2, 12, 8)
    );
}

#[test]
fn other_frames_are_shown() {
    let sync = frame(NodeRole::Relay, FrameType::Sync, 2);
    let ack = frame(NodeRole::Relay, FrameType::Ack, 3);
    assert_eq!(
        after_frame(
            NodeRole::Sensor,
            &ack,
            FrameReport::Joined {
                parent_id: 2,
                hop: 2,
                slot_id: 2
            }
        ),
        "rx JOIN_ACK: parent=2 hop=2 slot=2\n"
    );
    assert_eq!(
        after_frame(
            NodeRole::Sensor,
            &sync,
            FrameReport::Synced {
                sync_seq: 12,
                offset_ms: 7
            }
        ),
        "rx SYNC: sync_seq=12 offset_ms=7 drift=0ms\n"
    );
    assert_eq!(
        after_frame(
            NodeRole::Sensor,
            &ack,
            FrameReport::Acked {
                acked_seq: 7,
                acked_type: FrameType::Alarm,
                cleared: true
            }
        ),
        "rx ACK from=2 acked_seq=7 acked_type=ALARM cleared_pending=true\n"
    );
    let log = GatewayRxDataLog {
        frame_type: FrameType::Data,
        gateway_time_ms: 5_432,
        origin_id: 3,
        origin_seq: 1,
        via_id: 2,
        relay_seq: 2,
        hop: 2,
        temp_centi_c: 2_661,
        humidity_centi_percent: 5_145,
        alarm: false,
        ack_seq: None,
        buzzer_action: BuzzerAction::Unchanged,
        origin_seq_gap: None,
    };
    assert_eq!(
        after_frame(NodeRole::Gateway, &sync, FrameReport::ReadingReceived { log }),
        gateway_rx_data_text(&log)
    );
    assert_eq!(after_frame(NodeRole::Sensor, &sync, FrameReport::Nothing), "");
}

#[test]
fn frames_out_of_slot_are_warned_of() {
    let data = frame(NodeRole::Sensor, FrameType::Data, 8);
    assert_eq!(
        out_of_slot_text(&data, 5),
        "drop out-of-slot DATA from 3 claimed_slot=5"
    );
    assert_eq!(
        after_frame(
            NodeRole::Relay,
            &data,
            FrameReport::OutOfSlot { claimed_slot: 5 }
        ),
        ""
    );
}
