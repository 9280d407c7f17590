//! Settings, sensor readings, module configuration and reports.

use pipe_net::alarm::{AlarmLatch, AlarmTransition, EnvironmentSample};
use pipe_net::demo_log::{
    gateway_heartbeat_text, gateway_join_status_text, gateway_rx_data_text, gateway_stats_text,
    BuzzerAction, GatewayRxDataLog, GatewayStats,
};
use pipe_net::hardware::{
    BuzzerConfig, LoraModuleConfigMode, LoraModuleConfigPlan, LoraUartConfig, PinConfig,
    Sht40Config, DX_LR32_DEMO_AT_SEQUENCE,
};
use pipe_net::liveness::{GatewayJoinStatus, GatewayNodeLiveness};
use pipe_net::protocol::{Frame, FrameType, Payload};
use pipe_net::role::{NodeRole, DEMO_ZONE_ID, GATEWAY_ID, NET_ID};
use pipe_net::sensors::{
    crc8, decode_reading, sample_or_normal, sensor_step, Sht40Error, SENSOR_SAMPLE_INTERVAL_MS,
};
use pipe_net::tdma::TimeSync;
use pipe_net::text::{
    binary_text, celsius_text, clock_text, decimal_text, hundredths_text, last_seen_text,
    optional_seq_text, percent_text, signed_text,
};
use pipe_net::transport::{at_program, is_at_escape, AtOutcome, AtStep, MarkerScan};

const BOLD: &str = "==============================================================";
const THIN: &str = "--------------------------------------------------------------";

#[test]
fn pins_depend_on_the_role() {
    let all = PinConfig::demo_default();
    assert_eq!((all.lora_uart_tx, all.lora_uart_rx), (21, 20));
    let gateway = PinConfig::for_role(NodeRole::Gateway);
    assert_eq!((gateway.sht40_sda, gateway.sht40_scl, gateway.buzzer), (None, None, Some(10)));
    let relay = PinConfig::for_role(NodeRole::Relay);
    assert_eq!((relay.sht40_sda, relay.sht40_scl, relay.buzzer), (None, None, None));
    let sensor = PinConfig::for_role(NodeRole::Sensor);
    assert_eq!((sensor.sht40_sda, sensor.sht40_scl, sensor.buzzer), (Some(5), Some(4), None));
    assert_eq!(sensor.lora_m0, None);
}

#[test]
fn module_settings_are_the_documented_ones() {
    let uart = LoraUartConfig::demo_default();
    assert_eq!(uart.baudrate, 9_600);
    assert_eq!(uart.channel, 0);
    assert_eq!(uart.air_rate_bps, 2_148);
    assert_eq!(uart.tx_power_dbm, 22);
    assert_eq!(uart.frequency_mhz, 433);
    assert_eq!(uart.net_id, 0x4331);
    let plan = LoraModuleConfigPlan::dx_lr32_demo();
    assert_eq!(plan.module, "DX-LR32-433T22D");
    assert_eq!(plan.mode_label(), "runtime-at-commands");
    let manual = LoraModuleConfigPlan {
        mode: LoraModuleConfigMode::ManualBeforeBoot,
        ..plan
    };
    assert_eq!(manual.mode_label(), "manual-before-boot");
    assert_eq!(DX_LR32_DEMO_AT_SEQUENCE, ["+++", "AT+OPENKEY0\r\n", "+++"]);
    let sht40 = Sht40Config::standard();
    assert_eq!(sht40.i2c_address, 0x44);
    assert_eq!((sht40.temp_alarm_centi_c, sht40.temp_clear_centi_c), (3_000, 2_900));
    assert_eq!(
        (sht40.humidity_alarm_centi_percent, sht40.humidity_clear_centi_percent),
        (8_000, 7_500)
    );
}

#[test]
fn buzzer_rings_while_its_pin_is_low() {
    let buzzer = BuzzerConfig::standard();
    assert_eq!(buzzer.gpio, 10);
    assert_eq!(buzzer.level_for(BuzzerAction::On), Some(false));
    assert_eq!(buzzer.level_for(BuzzerAction::Off), Some(true));
    assert_eq!(buzzer.level_for(BuzzerAction::Unchanged), None);
}

#[test]
fn crc8_of_the_datasheet_word() {
    assert_eq!(crc8(&[0xbe, 0xef]), 0x92);
    assert_eq!(crc8(&[]), 0xff);
}

fn raw(temp: u16, humidity: u16) -> [u8; 6] {
    let t = [(temp >> 8) as u8, (temp & 0xff) as u8];
    let h = [(humidity >> 8) as u8, (humidity & 0xff) as u8];
    [t[0], t[1], crc8(&t), h[0], h[1], crc8(&h)]
}

#[test]
fn readings_are_converted() {
    let at = |temp: u16, humidity: u16| {
        let sample = decode_reading(&raw(temp, humidity)).unwrap();
        (sample.temp_centi_c, sample.humidity_centi_percent)
    };
    assert_eq!(at(0, 0), (-4_500, 0));
    assert_eq!(at(65_535, 65_535), (13_000, 10_000));
    assert_eq!(at(0x6666, 0x8000), (2_500, 5_650));
    assert_eq!(at(1, 3_145), (-4_500, 0));
    assert_eq!(at(4, 3_151), (-4_499, 1));
}

#[test]
fn damaged_readings_are_rejected() {
    let good = raw(0x6666, 0x8000);
    assert!(decode_reading(&good).is_ok());
    for index in 0..6 {
        for flip in 1..=255u8 {
            let mut bad = good;
            bad[index] ^= flip;
            let expected = if index < 3 {
                Sht40Error::BadTemperatureCrc
            } else {
                Sht40Error::BadHumidityCrc
            };
            assert_eq!(decode_reading(&bad), Err(expected));
        }
    }
    assert_eq!(Sht40Error::BadTemperatureCrc.message(), "temperature CRC check failed");
    assert_eq!(Sht40Error::BadHumidityCrc.message(), "humidity CRC check failed");
}

#[test]
fn sensor_falls_back_to_the_normal_sample() {
    let hot = EnvironmentSample {
        temp_centi_c: 3_120,
        humidity_centi_percent: 8_500,
    };
    assert_eq!(sample_or_normal(None), EnvironmentSample::normal());
    assert_eq!(sample_or_normal(Some(hot)), hot);
    let mut latch = AlarmLatch::new();
    let config = Sht40Config::standard();
    assert_eq!(sensor_step(&mut latch, Some(hot), config), (hot, AlarmTransition::Raised));
    assert_eq!(sensor_step(&mut latch, Some(hot), config), (hot, AlarmTransition::Unchanged));
    assert_eq!(
        sensor_step(&mut latch, None, config),
        (EnvironmentSample::normal(), AlarmTransition::Cleared)
    );
    assert_eq!(SENSOR_SAMPLE_INTERVAL_MS, 8_000);
}

#[test]
fn escapes_are_recognized() {
    assert!(is_at_escape("+++"));
    assert!(is_at_escape("+++\r\n"));
    assert!(is_at_escape("+++\n\r\n"));
    assert!(!is_at_escape("++"));
    assert!(!is_at_escape("++++"));
    assert!(!is_at_escape("\r\n+++"));
    assert!(!is_at_escape("AT+OPENKEY0\r\n"));
    assert!(!is_at_escape(""));
    assert!(!is_at_escape("\u{ff0b}++"));
}

#[test]
fn demo_module_is_configured_in_order() {
    assert_eq!(
        at_program(&DX_LR32_DEMO_AT_SEQUENCE),
        vec![
            AtStep::Wait { ms: 1_500 },
            AtStep::Wait { ms: 1_000 },
            AtStep::Send { index: 0 },
            AtStep::Wait { ms: 1_000 },
            AtStep::AwaitEntry { timeout_ms: 3_000 },
            AtStep::Send { index: 1 },
            AtStep::AwaitOk { timeout_ms: 2_000 },
            AtStep::Wait { ms: 1_000 },
            AtStep::Send { index: 2 },
            AtStep::Wait { ms: 1_500 },
        ]
    );
    assert_eq!(at_program(&[]), vec![AtStep::Wait { ms: 1_500 }]);
    let open = at_program(&["+++", "AT\r\n", "+++", "AT+B\r\n"]);
    assert_eq!(
        &open[5..],
        &[
            AtStep::Send { index: 1 },
            AtStep::AwaitOk { timeout_ms: 2_000 },
            AtStep::Send { index: 3 },
            AtStep::AwaitOk { timeout_ms: 2_000 },
        ]
    );
}

#[test]
fn configuration_stops_without_command_mode() {
    let entry = AtStep::AwaitEntry { timeout_ms: 3_000 };
    let ok = AtStep::AwaitOk { timeout_ms: 2_000 };
    assert_eq!(entry.outcome(false), AtOutcome::KeepSettings);
    assert_eq!(entry.outcome(true), AtOutcome::GoOn);
    assert_eq!(ok.outcome(true), AtOutcome::GoOn);
    assert_eq!(AtStep::Wait { ms: 1 }.outcome(false), AtOutcome::GoOn);
    assert_eq!(AtStep::Send { index: 0 }.outcome(false), AtOutcome::GoOn);
    assert_eq!(entry.awaited(), Some(("Entry AT", 3_000)));
    assert_eq!(ok.awaited(), Some(("OK", 2_000)));
    assert_eq!(AtStep::Send { index: 0 }.awaited(), None);
}

#[test]
fn unconfirmed_command_is_a_timeout() {
    let mut ended = None;
    for step in at_program(&DX_LR32_DEMO_AT_SEQUENCE) {
        let answered = step.awaited().map_or(true, |(marker, _)| marker == "Entry AT");
        match step.outcome(answered) {
            AtOutcome::GoOn => {}
            outcome => {
                ended = Some((step, outcome));
                break;
            }
        }
    }
    assert_eq!(
        ended,
        Some((AtStep::AwaitOk { timeout_ms: 2_000 }, AtOutcome::TimedOut))
    );
}

#[test]
fn answers_are_recognized_behind_noise() {
    let mut scan = MarkerScan::new(2_000);
    let mut found = None;
    let mut count = 0usize;
    for byte in b"xxOKO\r\nO" {
        count += 1;
        found = scan.on_byte(*byte, b"OK");
        if found.is_some() {
            break;
        }
    }
    assert_eq!((count, found), (4, Some(4)));
}

#[test]
fn answers_are_recognized_after_a_full_window() {
    let mut scan = MarkerScan::new(2_000);
    for _ in 0..200 {
        assert_eq!(scan.on_byte(b'.', b"OK"), None);
    }
    assert_eq!(scan.on_byte(b'O', b"OK"), None);
    assert_eq!(scan.on_byte(b'K', b"OK"), Some(128));
}

#[test]
fn silence_ends_the_wait() {
    let mut scan = MarkerScan::new(50);
    assert!(!scan.is_expired());
    assert_eq!(scan.on_silence(), 20);
    assert_eq!(scan.on_silence(), 20);
    assert!(!scan.is_expired());
    assert_eq!(scan.on_empty_read(), 10);
    assert!(!scan.is_expired());
    scan.on_byte(1, b"OK");
    assert!(!scan.is_expired());
    assert_eq!(scan.on_silence(), 20);
    assert!(scan.is_expired());
    assert!(MarkerScan::new(0).is_expired());
}

#[test]
fn numbers_and_times_as_text() {
    assert_eq!(decimal_text(0), "0");
    assert_eq!(decimal_text(907), "907");
    assert_eq!(decimal_text(u64::MAX), "18446744073709551615");
    assert_eq!(binary_text(12, 8), "00001100");
    assert_eq!(binary_text(255, 8), "11111111");
    assert_eq!(clock_text(0), "00:00:00.000");
    assert_eq!(clock_text(83_000), "00:01:23.000");
    assert_eq!(clock_text(86_399_999), "23:59:59.999");
    assert_eq!(clock_text(86_400_000 + 3_723_045), "01:02:03.045");
    assert_eq!(last_seen_text(None), "never");
    assert_eq!(last_seen_text(Some(1_002)), "00:00:01.002");
    assert_eq!(optional_seq_text(None), "-");
    assert_eq!(optional_seq_text(Some(65_535)), "65535");
    assert_eq!(signed_text(0), "0");
    assert_eq!(signed_text(-907), "-907");
    assert_eq!(signed_text(i64::MIN), "-9223372036854775808");
    assert_eq!(hundredths_text(5), "0.05");
    assert_eq!(celsius_text(2_661), "26.61 C");
    assert_eq!(celsius_text(-5), "-0.05 C");
    assert_eq!(celsius_text(-32_768), "-327.68 C");
    assert_eq!(percent_text(5_145), "51.45 %");
}

#[test]
fn readings_are_reported() {
    let log = GatewayRxDataLog {
        frame_type: FrameType::Alarm,
        gateway_time_ms: 211_000,
        origin_id: 3,
        origin_seq: 17,
        via_id: 2,
        relay_seq: 40,
        hop: 2,
        temp_centi_c: 3_120,
        humidity_centi_percent: 8_500,
        alarm: true,
        ack_seq: Some(9),
        buzzer_action: BuzzerAction::On,
        origin_seq_gap: None,
    };
    let expected = [
        "",
        BOLD,
        "[RX ALARM] gateway_time=00:03:31.000",
        THIN,
        "source      : node 3 (sensor), seq=17",
        "via         : node 2 (relay),  seq=40",
        "hop         : 2",
        "temperature : 31.20 C",
        "humidity    : 85.00 %",
        "alarm       : YES",
        "link        : via relay, crc ok",
        "action      : tx ACK seq=9, buzzer ON",
        BOLD,
        "",
    ]
    .join("\n");
    assert_eq!(gateway_rx_data_text(&log), expected);
    let later = GatewayRxDataLog {
        frame_type: FrameType::Data,
        alarm: false,
        ack_seq: None,
        buzzer_action: BuzzerAction::Off,
        origin_seq_gap: Some(2),
        ..log
    };
    let text = gateway_rx_data_text(&later);
    assert!(text.contains("[RX DATA] "));
    assert!(text.contains("\nalarm       : NO\n"));
    assert!(text.contains("\nlink        : via relay, crc ok, origin_seq_gap=2\n"));
    assert!(text.contains("\naction      : buzzer OFF\n"));
    assert_eq!(BuzzerAction::Unchanged.label(), "unchanged");
}

#[test]
fn heartbeats_are_reported() {
    let frame = Frame {
        net_id: NET_ID,
        src_id: 2,
        dst_id: GATEWAY_ID,
        node_role: NodeRole::Relay,
        zone_id: DEMO_ZONE_ID,
        frame_type: FrameType::Heartbeat,
        seq: 1,
        hop: 1,
        gateway_time_ms: 5_432,
        payload: Payload::new(),
    };
    assert_eq!(
        gateway_heartbeat_text(&frame, 3, 12, 0b1100),
        "[RX HEARTBEAT] from=node 2 (relay) data_slot=3 hop=1 sync_seq=12 \
         presence=0b00001100 gateway_time=00:00:05.432\n"
    );
}

#[test]
fn join_status_is_reported() {
    let status = GatewayJoinStatus {
        relay: GatewayNodeLiveness::Online,
        sensor: GatewayNodeLiveness::Unknown,
        relay_last_seen_ms: Some(61_001),
        sensor_last_seen_ms: None,
    };
    assert_eq!(
        gateway_join_status_text(&status, 62_000),
        "[JOIN STATUS] gateway_time=00:01:02.000 relay=ONLINE last_seen=00:01:01.001 \
         sensor=UNKNOWN via=relay last_seen=never\n"
    );
}

#[test]
fn counters_are_reported() {
    let mut stats = GatewayStats::new();
    stats.mark_sync_sent(7);
    assert_eq!(stats.record_rx_data(FrameType::Data, 1, false), None);
    assert_eq!(stats.record_rx_data(FrameType::Alarm, 4, true), Some(2));
    assert_eq!(stats.record_rx_data(FrameType::Data, 4, false), None);
    assert_eq!(stats.record_rx_data(FrameType::Data, 5, false), None);
    stats.record_slot_violation();
    assert_eq!(stats.rx_total(), 4);
    let expected = [
        THIN,
        "[NET STATS] uptime=00:04:00.000 rx_data=3 rx_alarm=1 tx_ack=1 \
         origin_seq_gap_total=2 last_sync=7 offset=3ms drift=-12ms",
        "sync       : tx_count=1 last_tx_sync_seq=7",
        "traffic    : rx_total=4 data=3 alarm=1 tx_ack=1",
        "link       : slot_violations=1 origin_seq_gap_total=2 last_origin_seq=5",
        THIN,
        "",
    ]
    .join("\n");
    let sync = TimeSync {
        offset_ms: 3,
        offset_delta_ms: -12,
        ..TimeSync::new(0)
    };
    assert_eq!(gateway_stats_text(&stats, sync, 240_000), expected);
    let fresh = gateway_stats_text(&GatewayStats::new(), TimeSync::new(0), 0);
    assert!(fresh.contains("last_origin_seq=-\n"));
    assert!(fresh.contains("last_sync=0 offset=0ms drift=0ms\n"));
}

#[test]
fn counters_stay_at_their_limit() {
    let mut stats = GatewayStats {
        rx_data: u32::MAX,
        slot_violations: u32::MAX,
        origin_seq_gap_total: u32::MAX - 1,
        last_origin_seq: Some(65_535),
        ..GatewayStats::new()
    };
    assert_eq!(stats.record_rx_data(FrameType::Data, 9, false), Some(9));
    stats.record_slot_violation();
    assert_eq!(stats.rx_data, u32::MAX);
    assert_eq!(stats.slot_violations, u32::MAX);
    assert_eq!(stats.origin_seq_gap_total, u32::MAX);
    stats.rx_alarm = 2;
    assert_eq!(stats.rx_total(), 1);
}
