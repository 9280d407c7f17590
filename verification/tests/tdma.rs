//! The schedule and the clock.

use pipe_net::protocol::FrameType;
use pipe_net::role::NodeRole;
use pipe_net::tdma::{TdmaSchedule, TimeSync};

#[test]
fn demo_schedule_divides_time() {
    let schedule = TdmaSchedule::demo();
    assert_eq!(schedule.slot_at(0), 0);
    assert_eq!(schedule.slot_at(999), 0);
    assert_eq!(schedule.slot_at(1_000), 1);
    assert_eq!(schedule.slot_at(7_999), 7);
    assert_eq!(schedule.slot_at(8_000), 0);
    assert_eq!(schedule.slot_elapsed_ms(8_123), 123);
    assert_eq!(schedule.active_end_ms(), 800);
    assert_eq!(schedule.next_slot_delay_ms(8_123), 877);
    assert_eq!(schedule.next_slot_delay_ms(8_000), 1_000);
}

#[test]
fn active_window_lies_between_the_guards() {
    let schedule = TdmaSchedule::demo();
    assert!(!schedule.is_active_window(2_099));
    assert!(schedule.is_active_window(2_100));
    assert!(schedule.is_active_window(2_799));
    assert!(!schedule.is_active_window(2_800));
}

#[test]
fn waiting_for_the_next_slot_arrives_there() {
    let schedule = TdmaSchedule::demo();
    for time in [0u64, 1, 999, 1_000, 7_500, 7_999, 123_456_789] {
        let later = time + schedule.next_slot_delay_ms(time) as u64;
        assert_eq!(schedule.slot_elapsed_ms(later), 0);
        assert_eq!(schedule.slot_at(later), (schedule.slot_at(time) + 1) % 8);
    }
}

#[test]
fn slots_have_owners() {
    let schedule = TdmaSchedule::demo();
    let periodic = [FrameType::Data, FrameType::Alarm, FrameType::Heartbeat];
    for slot in 0..8u8 {
        for frame_type in periodic {
            assert!(!schedule.slot_owner_ok(NodeRole::Gateway, frame_type, slot));
        }
        assert_eq!(schedule.slot_owner_ok(NodeRole::Sensor, FrameType::Data, slot), slot == 2);
        assert_eq!(schedule.slot_owner_ok(NodeRole::Relay, FrameType::Data, slot), slot == 3);
        assert_eq!(
            schedule.slot_owner_ok(NodeRole::Sensor, FrameType::Alarm, slot),
            slot == 2 || slot == 4
        );
        assert_eq!(
            schedule.slot_owner_ok(NodeRole::Relay, FrameType::Alarm, slot),
            slot == 3 || slot == 4
        );
        assert_eq!(schedule.slot_owner_ok(NodeRole::Relay, FrameType::Heartbeat, slot), slot == 5);
        assert_eq!(schedule.slot_owner_ok(NodeRole::Sensor, FrameType::Heartbeat, slot), slot == 6);
        assert!(schedule.slot_owner_ok(NodeRole::Gateway, FrameType::Sync, slot));
        assert!(schedule.slot_owner_ok(NodeRole::Sensor, FrameType::Hello, slot));
    }
}

#[test]
fn window_end_wraps_around() {
    let schedule = TdmaSchedule {
        guard_before_ms: u32::MAX,
        active_ms: 3,
        ..TdmaSchedule::demo()
    };
    assert_eq!(schedule.active_end_ms(), 2);
}

#[test]
fn first_sync_is_exact() {
    let mut sync = TimeSync::new(2);
    assert_eq!(sync.gateway_time_ms(500), 500);
    sync.apply_sync(1, 1_000, 900);
    assert_eq!(sync.offset_ms, 100);
    assert_eq!(sync.offset_delta_ms, 0);
    assert_eq!(sync.last_sync_seq, 1);
    assert_eq!(sync.hop, 2);
    assert_eq!(sync.gateway_time_ms(900), 1_000);
}

#[test]
fn later_syncs_move_an_eighth_of_the_way() {
    let mut sync = TimeSync::new(1);
    sync.apply_sync(1, 1_000, 900);
    sync.apply_sync(2, 2_180, 2_000);
    assert_eq!(sync.offset_ms, 110);
    assert_eq!(sync.last_measured_offset_ms, 180);
    assert_eq!(sync.offset_delta_ms, 80);
    sync.apply_sync(3, 3_000, 3_500);
    assert_eq!(sync.offset_ms, 33);
    assert_eq!(sync.offset_delta_ms, -680);
}

#[test]
fn gateway_time_is_kept_in_range() {
    let mut sync = TimeSync::new(1);
    sync.apply_sync(1, 0, 5_000);
    assert_eq!(sync.offset_ms, -5_000);
    assert_eq!(sync.gateway_time_ms(5_001), 1);
    assert_eq!(sync.gateway_time_ms(4_999), 0);
    let mut ahead = TimeSync::new(1);
    ahead.apply_sync(1, 7, 0);
    assert_eq!(ahead.gateway_time_ms(u64::MAX), u64::MAX);
}

#[test]
fn offsets_wrap_around() {
    let mut sync = TimeSync::new(1);
    sync.apply_sync(1, u64::MAX, 0);
    assert_eq!(sync.offset_ms, -1);
}

#[test]
fn sync_with_number_zero_starts_over() {
    let mut sync = TimeSync::new(1);
    sync.apply_sync(65_535, 100, 0);
    sync.apply_sync(0, 200, 0);
    assert_eq!(sync.offset_ms, 112);
    assert_eq!(sync.last_sync_seq, 0);
    sync.apply_sync(1, 300, 0);
    assert_eq!(sync.offset_ms, 300);
}

#[test]
fn slots_fill_a_superframe_of_any_length() {
    let schedule = TdmaSchedule {
        superframe_ms: 6_000,
        ..TdmaSchedule::demo()
    };
    assert_eq!(schedule.slot_at(5_250), 5);
    assert_eq!(schedule.next_slot_delay_ms(5_250), 750);
    assert_eq!((schedule.slot_at(6_000), schedule.slot_elapsed_ms(6_000)), (0, 0));
}
