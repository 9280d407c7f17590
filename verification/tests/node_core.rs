//! Three cores talking to each other.

use pipe_net::alarm::{AlarmTransition, EnvironmentSample};
use pipe_net::demo::NetworkPhase;
use pipe_net::demo_log::BuzzerAction;
use pipe_net::node_core::{
    send_gaps_ms, tx_repeats, tx_window_delay_ms, AlarmReport, FrameReport, NodeCore, TimerReport,
    HELLO_RETRY_INTERVAL_MS, STATISTICS_PERIOD_MS,
};
use pipe_net::protocol::{Frame, FrameType};
use pipe_net::role::{NodeRole, BROADCAST_ID, GATEWAY_ID, RELAY_ID, SENSOR_ID};

struct Network {
    gateway: NodeCore,
    relay: NodeCore,
    sensor: NodeCore,
}

/// Three cores that have joined each other and share the gateway's clock.
fn joined_network() -> Network {
    let mut gateway = NodeCore::new(NodeRole::Gateway, 0);
    let mut relay = NodeCore::new(NodeRole::Relay, 0);
    let mut sensor = NodeCore::new(NodeRole::Sensor, 0);

    assert_eq!(gateway.start(0).unwrap(), None);
    let relay_hello = relay.start(10).unwrap().unwrap();
    let answer = gateway.handle_received_frame(&relay_hello, 20).unwrap();
    assert_eq!(answer.report, FrameReport::ChildAdmitted);
    let joined = relay.handle_received_frame(&answer.frames[0], 30).unwrap();
    assert_eq!(
        joined.report,
        FrameReport::Joined {
            parent_id: GATEWAY_ID,
            hop: 1,
            slot_id: 3
        }
    );

    let sensor_hello = sensor.start(40).unwrap().unwrap();
    let answer = relay.handle_received_frame(&sensor_hello, 50).unwrap();
    assert_eq!(answer.frames.len(), 2);
    sensor.handle_received_frame(&answer.frames[0], 60).unwrap();
    let announced = gateway.handle_received_frame(&answer.frames[1], 60).unwrap();
    assert_eq!(announced.report, FrameReport::SensorAnnounced);

    let sync = gateway.on_timer(100).unwrap();
    assert!(matches!(
        sync.report,
        TimerReport::SyncBroadcast {
            sync_seq: 1,
            slot: 0,
            silence_buzzer: true,
            ..
        }
    ));
    let queued = relay.handle_received_frame(&sync.frames[0], 100).unwrap();
    assert_eq!(
        queued.report,
        FrameReport::SyncQueued {
            sync_seq: 1,
            offset_ms: 0
        }
    );
    let forwarded = relay.on_timer(1_100).unwrap();
    assert_eq!(forwarded.report, TimerReport::SyncForwarded);
    assert_eq!(forwarded.frames[0].dst_id, BROADCAST_ID);
    let synced = sensor.handle_received_frame(&forwarded.frames[0], 1_100).unwrap();
    assert_eq!(
        synced.report,
        FrameReport::Synced {
            sync_seq: 1,
            offset_ms: 0
        }
    );
    Network {
        gateway,
        relay,
        sensor,
    }
}

fn only(frames: &[Frame]) -> &Frame {
    assert_eq!(frames.len(), 1);
    &frames[0]
}

#[test]
fn data_reaches_the_gateway() {
    let mut net = joined_network();
    net.sensor.take_latest_sensor_sample(Some(EnvironmentSample {
        temp_centi_c: 2_661,
        humidity_centi_percent: 5_145,
    }));
    let sent = net.sensor.on_timer(2_100).unwrap();
    let data = only(&sent.frames);
    assert_eq!(data.frame_type, FrameType::Data);
    assert!(!net.sensor.has_pending_ack());

    let kept = net.relay.handle_received_frame(data, 2_110).unwrap();
    assert_eq!(
        kept.report,
        FrameReport::DataBuffered {
            origin_id: SENSOR_ID,
            origin_seq: 1,
            temp_centi_c: 2_661,
            humidity_centi_percent: 5_145
        }
    );
    assert!(kept.frames.is_empty());
    assert!(net.relay.has_buffered_data());

    let passed = net.relay.on_timer(3_100).unwrap();
    assert_eq!(passed.report, TimerReport::ReadingsForwarded);
    let relayed = only(&passed.frames);
    assert_eq!((relayed.src_id, relayed.dst_id), (RELAY_ID, GATEWAY_ID));
    assert!(!net.relay.has_buffered_data());

    let heard = net.gateway.handle_received_frame(relayed, 3_110).unwrap();
    assert!(heard.frames.is_empty());
    match heard.report {
        FrameReport::ReadingReceived { log } => {
            assert_eq!(log.origin_id, SENSOR_ID);
            assert_eq!(log.origin_seq, 1);
            assert_eq!(log.via_id, RELAY_ID);
            assert_eq!(log.hop, 2);
            assert_eq!(log.temp_centi_c, 2_661);
            assert_eq!(log.humidity_centi_percent, 5_145);
            assert!(!log.alarm);
            assert_eq!(log.buzzer_action, BuzzerAction::Unchanged);
            assert_eq!(log.origin_seq_gap, None);
        }
        other => panic!("{:?}", other),
    }
    assert_eq!(net.gateway.stats().rx_data, 1);
}

#[test]
fn alarm_rings_the_buzzer_and_data_silences_it() {
    let mut net = joined_network();
    let hot = EnvironmentSample {
        temp_centi_c: 3_120,
        humidity_centi_percent: 8_500,
    };
    net.sensor.take_latest_sensor_sample(Some(hot));
    net.sensor.take_latest_sensor_sample(None);
    assert_eq!(
        net.sensor.handle_sensor_alarm_transition(AlarmTransition::Raised),
        AlarmReport::Raised { sample: hot }
    );
    let sent = net.sensor.on_timer(2_100).unwrap();
    assert_eq!(sent.report, TimerReport::ReadingSent { sample: hot });
    let alarm = only(&sent.frames);
    assert_eq!(alarm.frame_type, FrameType::Alarm);
    assert!(net.sensor.has_pending_ack());

    let queued = net.relay.handle_received_frame(alarm, 2_110).unwrap();
    let acked = net
        .sensor
        .handle_received_frame(only(&queued.frames), 2_120)
        .unwrap();
    assert_eq!(
        acked.report,
        FrameReport::Acked {
            acked_seq: alarm.seq,
            acked_type: FrameType::Alarm,
            cleared: true
        }
    );
    assert!(!net.sensor.has_pending_ack());

    let passed = net.relay.on_timer(3_100).unwrap();
    let relayed = only(&passed.frames);
    assert_eq!(relayed.frame_type, FrameType::Alarm);
    assert!(net.relay.has_pending_ack());
    let heard = net.gateway.handle_received_frame(relayed, 3_110).unwrap();
    match heard.report {
        FrameReport::ReadingReceived { log } => {
            assert_eq!(log.buzzer_action, BuzzerAction::On);
            assert_eq!(log.ack_seq, Some(heard.frames[0].seq));
        }
        other => panic!("{:?}", other),
    }
    net.relay.handle_received_frame(only(&heard.frames), 3_120).unwrap();
    assert!(!net.relay.has_pending_ack());

    let cool = EnvironmentSample::normal();
    net.sensor.take_latest_sensor_sample(Some(cool));
    assert_eq!(
        net.sensor.handle_sensor_alarm_transition(AlarmTransition::Cleared),
        AlarmReport::Cleared {
            sample: cool,
            cancelled: false
        }
    );
    assert_eq!(net.sensor.on_timer(4_100).unwrap().report, TimerReport::Idle);
    let sent = net.sensor.on_timer(10_100).unwrap();
    let data = only(&sent.frames);
    net.relay.handle_received_frame(data, 10_110).unwrap();
    assert_eq!(net.relay.on_timer(7_100).unwrap().report, TimerReport::Idle);
    let passed = net.relay.on_timer(11_100).unwrap();
    let heard = net
        .gateway
        .handle_received_frame(only(&passed.frames), 11_110)
        .unwrap();
    assert!(matches!(
        heard.report,
        FrameReport::ReadingReceived { log } if log.buzzer_action == BuzzerAction::Off
    ));
}

#[test]
fn unanswered_alarm_is_repeated_and_given_up() {
    let mut net = joined_network();
    net.sensor.handle_sensor_alarm_transition(AlarmTransition::Raised);
    let sent = net.sensor.on_timer(2_100).unwrap();
    let alarm = only(&sent.frames).clone();
    net.sensor.handle_sensor_alarm_transition(AlarmTransition::Unchanged);

    let early = net.sensor.on_timer(4_100).unwrap();
    assert_eq!(early.report, TimerReport::AlarmRetried { attempt: 2 });
    assert_eq!(only(&early.frames), &alarm);

    let mut quiet = joined_network();
    quiet.sensor.handle_sensor_alarm_transition(AlarmTransition::Raised);
    quiet.sensor.on_timer(2_100).unwrap();
    assert_eq!(
        quiet.sensor.on_timer(4_100).unwrap().report,
        TimerReport::AlarmRetried { attempt: 2 }
    );
    quiet.sensor.handle_sensor_alarm_transition(AlarmTransition::Unchanged);
    quiet.sensor.on_timer(6_100).unwrap();
    assert_eq!(
        quiet.sensor.on_timer(12_100).unwrap().report,
        TimerReport::AlarmRetried { attempt: 3 }
    );
    quiet.sensor.on_timer(14_100).unwrap();
    assert_eq!(
        quiet.sensor.on_timer(20_100).unwrap().report,
        TimerReport::AlarmDropped {
            seq: 2,
            frame_type: FrameType::Alarm
        }
    );
    assert!(!quiet.sensor.has_pending_ack());
}

#[test]
fn clearing_cancels_a_waiting_alarm() {
    let mut net = joined_network();
    net.sensor.handle_sensor_alarm_transition(AlarmTransition::Raised);
    net.sensor.on_timer(2_100).unwrap();
    assert!(net.sensor.has_pending_ack());
    assert!(matches!(
        net.sensor.handle_sensor_alarm_transition(AlarmTransition::Cleared),
        AlarmReport::Cleared {
            cancelled: true,
            ..
        }
    ));
    assert!(!net.sensor.has_pending_ack());
}

#[test]
fn heartbeats_show_who_is_online() {
    let mut net = joined_network();
    let beat = net.sensor.on_timer(6_100).unwrap();
    assert_eq!(
        beat.report,
        TimerReport::HeartbeatSent {
            heartbeat_slot: 6,
            presence_mask: 8
        }
    );
    let heard = net.relay.handle_received_frame(only(&beat.frames), 6_110).unwrap();
    assert_eq!(
        heard.report,
        FrameReport::HeartbeatReceived {
            slot_id: 2,
            hop: 2,
            sync_seq: 1,
            presence_mask: 8
        }
    );
    let beat = net.relay.on_timer(13_100).unwrap();
    assert_eq!(
        beat.report,
        TimerReport::HeartbeatSent {
            heartbeat_slot: 5,
            presence_mask: 12
        }
    );
    net.gateway.handle_received_frame(only(&beat.frames), 13_110).unwrap();
    let sync = net.gateway.on_timer(8_100).unwrap();
    assert_eq!(sync.report, TimerReport::Idle);
    net.gateway.on_timer(15_100).unwrap();
    let sync = net.gateway.on_timer(16_100).unwrap();
    match sync.report {
        TimerReport::SyncBroadcast { status, .. } => {
            assert_eq!(status.relay.label(), "ONLINE");
            assert_eq!(status.sensor.label(), "ONLINE");
            assert_eq!(status.relay_last_seen_ms, Some(13_110));
        }
        other => panic!("{:?}", other),
    }
}

#[test]
fn nothing_is_sent_in_the_guard_or_twice_in_a_slot() {
    let mut net = joined_network();
    assert_eq!(net.sensor.on_timer(2_099).unwrap().report, TimerReport::Idle);
    assert!(matches!(
        net.sensor.on_timer(2_100).unwrap().report,
        TimerReport::ReadingSent { .. }
    ));
    assert_eq!(net.sensor.on_timer(2_500).unwrap().report, TimerReport::Idle);
    assert_eq!(net.sensor.on_timer(7_100).unwrap().report, TimerReport::Idle);
}

#[test]
fn waiting_leads_to_the_next_window() {
    let mut net = joined_network();
    assert_eq!(net.sensor.wait_ms(2_040), 60);
    assert_eq!(net.sensor.wait_ms(2_100), 0);
    assert_eq!(net.sensor.wait_ms(2_850), 150);
    net.sensor.on_timer(2_100).unwrap();
    assert_eq!(net.sensor.wait_ms(2_101), 899);
    assert_eq!(tx_window_delay_ms(net.sensor.node(), 3_010, 3, Some(2)), 90);
    assert_eq!(tx_window_delay_ms(net.sensor.node(), 3_010, 3, Some(3)), 990);
    assert!(net.sensor.follow_schedule());
}

#[test]
fn searching_nodes_repeat_hello() {
    let mut sensor = NodeCore::new(NodeRole::Sensor, 500);
    assert!(!sensor.follow_schedule());
    assert_eq!(sensor.node().phase(), NetworkPhase::Searching);
    assert_eq!(sensor.wait_ms(700), 1_800);
    assert_eq!(sensor.wait_ms(9_000), 0);
    assert_eq!(sensor.on_timer(2_499).unwrap().report, TimerReport::Idle);
    let retry = sensor.on_timer(2_500).unwrap();
    assert_eq!(retry.report, TimerReport::HelloRetried);
    assert_eq!(only(&retry.frames).frame_type, FrameType::Hello);
    assert_eq!(sensor.on_timer(2_600).unwrap().report, TimerReport::Idle);
    assert_eq!(HELLO_RETRY_INTERVAL_MS, 2_000);
}

#[test]
fn joined_node_without_clock_just_waits() {
    let mut gateway = NodeCore::new(NodeRole::Gateway, 0);
    let mut relay = NodeCore::new(NodeRole::Relay, 0);
    let hello = relay.start(0).unwrap().unwrap();
    let answer = gateway.handle_received_frame(&hello, 0).unwrap();
    relay.handle_received_frame(&answer.frames[0], 0).unwrap();
    assert!(!relay.follow_schedule());
    assert_eq!(relay.wait_ms(5), 2_000);
    assert_eq!(relay.on_timer(50_000).unwrap().report, TimerReport::Idle);
}

#[test]
fn topology_is_a_line() {
    let mut net = joined_network();
    let mut sensor = NodeCore::new(NodeRole::Sensor, 0);
    let mut other_relay = NodeCore::new(NodeRole::Relay, 0);
    let sensor_hello = sensor.start(1).unwrap().unwrap();
    let relay_hello = other_relay.start(1).unwrap().unwrap();
    let refused = net.gateway.handle_received_frame(&sensor_hello, 1).unwrap();
    assert_eq!(refused.report, FrameReport::HelloRefused);
    assert!(refused.frames.is_empty());
    let ignored = net.relay.handle_received_frame(&relay_hello, 1).unwrap();
    assert_eq!(ignored.report, FrameReport::Nothing);
    let ignored = net.sensor.handle_received_frame(&relay_hello, 1).unwrap();
    assert_eq!(ignored.report, FrameReport::Nothing);
}

#[test]
fn frames_out_of_slot_are_dropped_and_counted() {
    let mut net = joined_network();
    let sent = net.sensor.on_timer(2_100).unwrap();
    let mut late = only(&sent.frames).clone();
    late.gateway_time_ms = 7_300;
    let dropped = net.relay.handle_received_frame(&late, 7_310).unwrap();
    assert_eq!(dropped.report, FrameReport::OutOfSlot { claimed_slot: 7 });
    assert!(!net.relay.has_buffered_data());
    assert_eq!(net.relay.stats().slot_violations, 1);
}

#[test]
fn relay_passes_on_two_frames_per_slot() {
    let mut net = joined_network();
    for cycle in 0..3u64 {
        let start = cycle * 8_000;
        let sent = net.sensor.on_timer(start + 2_100).unwrap();
        net.relay
            .handle_received_frame(only(&sent.frames), start + 2_110)
            .unwrap();
        net.sensor.on_timer(start + 6_100).unwrap();
    }
    let first = net.relay.on_timer(19_100).unwrap();
    let seqs: Vec<u16> = first
        .frames
        .iter()
        .map(pipe_net::pending::origin_seq)
        .collect();
    assert_eq!(seqs, vec![1, 2]);
    assert!(net.relay.has_buffered_data());
    assert_eq!(net.relay.on_timer(19_200).unwrap().report, TimerReport::Idle);
    net.relay.on_timer(23_100).unwrap();
    let second = net.relay.on_timer(27_100).unwrap();
    let seqs: Vec<u16> = second
        .frames
        .iter()
        .map(pipe_net::pending::origin_seq)
        .collect();
    assert_eq!(seqs, vec![3]);
}

#[test]
fn repeated_frames_change_nothing() {
    let mut net = joined_network();
    net.sensor.handle_sensor_alarm_transition(AlarmTransition::Raised);
    let sent = net.sensor.on_timer(2_100).unwrap();
    let alarm = only(&sent.frames);
    assert_eq!(net.relay.handle_received_frame(alarm, 2_110).unwrap().frames.len(), 1);
    let again = net.relay.handle_received_frame(alarm, 4_110).unwrap();
    assert_eq!(again.report, FrameReport::Nothing);
    assert!(again.frames.is_empty());
}

#[test]
fn frames_in_between_do_not_reopen_a_slot() {
    let mut net = joined_network();
    let beat = net.relay.on_timer(5_100).unwrap();
    assert!(matches!(beat.report, TimerReport::HeartbeatSent { .. }));
    let hello = NodeCore::new(NodeRole::Sensor, 0).start(5_150).unwrap().unwrap();
    let admitted = net.relay.handle_received_frame(&hello, 5_200).unwrap();
    assert_eq!(admitted.report, FrameReport::ChildAdmitted);
    net.relay.take_latest_sensor_sample(None);
    assert_eq!(net.relay.on_timer(5_300).unwrap().report, TimerReport::Idle);
    assert_eq!(net.relay.on_timer(5_400).unwrap().report, TimerReport::Idle);
}

#[test]
fn a_retried_alarm_is_accepted_for_its_first_slot() {
    let mut net = joined_network();
    net.sensor.handle_sensor_alarm_transition(AlarmTransition::Raised);
    net.sensor.on_timer(2_100).unwrap();
    let retry = net.sensor.on_timer(4_100).unwrap();
    assert_eq!(retry.report, TimerReport::AlarmRetried { attempt: 2 });
    assert_eq!(only(&retry.frames).gateway_time_ms, 2_100);
    let queued = net.relay.handle_received_frame(only(&retry.frames), 4_110).unwrap();
    assert!(matches!(queued.report, FrameReport::AlarmQueued { .. }));
}

#[test]
fn statistics_come_every_thirty_seconds() {
    let mut gateway = NodeCore::new(NodeRole::Gateway, 40);
    assert_eq!(STATISTICS_PERIOD_MS, 30_000);
    assert!(!gateway.poll_statistics(29_999));
    assert!(gateway.poll_statistics(30_000));
    assert!(!gateway.poll_statistics(30_001));
    assert!(!gateway.poll_statistics(59_999));
    assert!(gateway.poll_statistics(60_700));
    assert!(gateway.poll_statistics(90_000));
    let mut relay = NodeCore::new(NodeRole::Relay, 0);
    assert!(!relay.poll_statistics(90_000));
}

#[test]
fn best_effort_frames_are_sent_twice() {
    assert_eq!(tx_repeats(FrameType::Data), 2);
    for frame_type in [
        FrameType::Hello,
        FrameType::JoinAck,
        FrameType::Sync,
        FrameType::Schedule,
        FrameType::Alarm,
        FrameType::Ack,
        FrameType::Heartbeat,
    ] {
        assert_eq!(tx_repeats(frame_type), 1);
    }
    assert_eq!(send_gaps_ms(2), vec![0, 40]);
    assert_eq!(send_gaps_ms(1), vec![0]);
    assert_eq!(send_gaps_ms(0), vec![0]);
    assert_eq!(send_gaps_ms(3), vec![0, 40, 40]);
}
