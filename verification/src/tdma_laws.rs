//! What the schedule and the clock synchronization guarantee over time.

use vstd::prelude::*;

use crate::protocol::FrameType;
use crate::role::NodeRole;
use crate::tdma;
use crate::tdma::{TdmaSchedule, TimeSync};

verus! {

/// The demo schedule is made of eight slots of a second that fill the
/// superframe. Each slot is 100 ms of guard, 700 ms of active window and 200 ms
/// of guard, and each slot has one purpose.
pub proof fn law_demo_schedule()
    ensures
        ({
            let s = TdmaSchedule::demo();
            &&& s.is_regular()
            &&& s.slots() == s.slot_count
            &&& s.active_end_ms() == 800
            &&& s.slot_ms - s.active_end_ms() == 200
            &&& seq![
                s.sync_slot,
                s.relay_control_slot,
                s.sensor_slot,
                s.relay_slot,
                s.alarm_retry_slot,
                s.relay_heartbeat_slot,
                s.sensor_heartbeat_slot,
                s.quiet_slot,
            ] == seq![0u8, 1u8, 2u8, 3u8, 4u8, 5u8, 6u8, 7u8]
        }),
{
}

/// The slots of a regular schedule fill the superframe.
proof fn lemma_slots_fill(schedule: TdmaSchedule)
    requires
        schedule.is_regular(),
    ensures
        schedule.superframe_ms == schedule.slots() * schedule.slot_ms,
        schedule.slots() > 0,
{
    let frame = schedule.superframe_ms as int;
    let m = schedule.slot_ms as int;
    let n = schedule.slots();
    vstd::arithmetic::div_mod::lemma_fundamental_div_mod(frame, m);
    assert(m * n == n * m) by (nonlinear_arith);
    assert(n > 0) by (nonlinear_arith)
        requires
            frame == n * m,
            frame > 0,
            m > 0,
    ;
}

/// A time is a whole number of superframes, then a whole number of slots, then
/// the time elapsed in the slot; there are as many slots as the superframe holds,
/// and their numbers are what `slot_at` gives, up to its 8 bits.
pub proof fn law_time_divides_into_slots(schedule: TdmaSchedule, gateway_time_ms: u64)
    requires
        schedule.is_regular(),
    ensures
        0 <= schedule.slot_index(gateway_time_ms) < schedule.slots(),
        schedule.slot_at(gateway_time_ms) == schedule.slot_index(gateway_time_ms) % 256,
        schedule.slot_elapsed_ms(gateway_time_ms) < schedule.slot_ms,
        gateway_time_ms == (gateway_time_ms as int / schedule.superframe_ms as int)
            * schedule.superframe_ms + schedule.slot_index(gateway_time_ms) * schedule.slot_ms
            + schedule.slot_elapsed_ms(gateway_time_ms),
{
    let n = schedule.slots();
    let m = schedule.slot_ms as int;
    let t = gateway_time_ms as int;
    let frame = schedule.superframe_ms as int;
    lemma_slots_fill(schedule);
    let e = t % frame;
    vstd::arithmetic::div_mod::lemma_fundamental_div_mod(t, frame);
    vstd::arithmetic::div_mod::lemma_fundamental_div_mod(e, m);
    vstd::arithmetic::div_mod::lemma_mod_bound(t, frame);
    vstd::arithmetic::div_mod::lemma_mod_bound(e, m);
    assert(e / m < n) by (nonlinear_arith)
        requires
            0 <= e < n * m,
            m > 0,
    ;
    assert(0 <= e / m) by (nonlinear_arith)
        requires
            0 <= e,
            m > 0,
    ;
    assert(frame * (t / frame) == (t / frame) * frame) by (nonlinear_arith);
    assert(m * (e / m) == (e / m) * m) by (nonlinear_arith);
}

/// Waiting for the time that is left in a slot leads to the very start of the
/// next slot, and after the last slot to the first.
pub proof fn law_next_slot_starts_after_delay(schedule: TdmaSchedule, gateway_time_ms: u64)
    requires
        schedule.is_regular(),
        gateway_time_ms + schedule.next_slot_delay_ms(gateway_time_ms) <= u64::MAX,
    ensures
        ({
            let later = (gateway_time_ms + schedule.next_slot_delay_ms(gateway_time_ms)) as u64;
            &&& schedule.slot_elapsed_ms(later) == 0
            &&& schedule.slot_index(later) == (schedule.slot_index(gateway_time_ms) + 1)
                % schedule.slots()
        }),
{
    let n = schedule.slots();
    let m = schedule.slot_ms as int;
    let frame = schedule.superframe_ms as int;
    let t = gateway_time_ms as int;
    let k = t / frame;
    let q = schedule.slot_index(gateway_time_ms);
    let later = t + schedule.next_slot_delay_ms(gateway_time_ms);
    lemma_slots_fill(schedule);
    law_time_divides_into_slots(schedule, gateway_time_ms);
    assert(later == k * frame + (q + 1) * m) by (nonlinear_arith)
        requires
            t == k * frame + q * m + (t - k * frame - q * m),
            later == t + (m - (t - k * frame - q * m)),
    ;
    if q + 1 < n {
        let e = (q + 1) * m;
        assert(0 <= e < frame) by (nonlinear_arith)
            requires
                0 <= q,
                q + 1 < n,
                e == (q + 1) * m,
                frame == n * m,
                m > 0,
        ;
        vstd::arithmetic::div_mod::lemma_fundamental_div_mod_converse(later, frame, k, e);
        vstd::arithmetic::div_mod::lemma_fundamental_div_mod_converse(e, m, q + 1, 0);
        vstd::arithmetic::div_mod::lemma_small_mod((q + 1) as nat, n as nat);
    } else {
        assert(later == (k + 1) * frame) by (nonlinear_arith)
            requires
                later == k * frame + (q + 1) * m,
                q + 1 == n,
                frame == n * m,
        ;
        vstd::arithmetic::div_mod::lemma_fundamental_div_mod_converse(later, frame, k + 1, 0);
        vstd::arithmetic::div_mod::lemma_fundamental_div_mod_converse(0, m, 0, 0);
        vstd::arithmetic::div_mod::lemma_mod_self_0(n);
    }
}

/// As long as a slot is not over, the slot stays the same and its elapsed time
/// grows with time.
pub proof fn law_time_stays_in_slot(schedule: TdmaSchedule, gateway_time_ms: u64, delay_ms: u64)
    requires
        schedule.is_regular(),
        delay_ms < schedule.next_slot_delay_ms(gateway_time_ms),
        gateway_time_ms + delay_ms <= u64::MAX,
    ensures
        ({
            let later = (gateway_time_ms + delay_ms) as u64;
            &&& schedule.slot_index(later) == schedule.slot_index(gateway_time_ms)
            &&& schedule.slot_at(later) == schedule.slot_at(gateway_time_ms)
            &&& schedule.slot_elapsed_ms(later) == schedule.slot_elapsed_ms(gateway_time_ms)
                + delay_ms
        }),
{
    let n = schedule.slots();
    let m = schedule.slot_ms as int;
    let frame = schedule.superframe_ms as int;
    let t = gateway_time_ms as int;
    let k = t / frame;
    let q = schedule.slot_index(gateway_time_ms);
    lemma_slots_fill(schedule);
    law_time_divides_into_slots(schedule, gateway_time_ms);
    let elapsed = schedule.slot_elapsed_ms(gateway_time_ms) + delay_ms;
    let e = q * m + elapsed;
    assert(0 <= e < frame) by (nonlinear_arith)
        requires
            0 <= q < n,
            0 <= elapsed < m,
            e == q * m + elapsed,
            frame == n * m,
    ;
    vstd::arithmetic::div_mod::lemma_fundamental_div_mod_converse(t + delay_ms, frame, k, e);
    vstd::arithmetic::div_mod::lemma_fundamental_div_mod_converse(e, m, q, elapsed);
}

/// Every superframe is divided alike.
pub proof fn law_superframes_repeat(schedule: TdmaSchedule, gateway_time_ms: u64)
    requires
        schedule.divides_time(),
        gateway_time_ms + schedule.superframe_ms <= u64::MAX,
    ensures
        ({
            let later = (gateway_time_ms + schedule.superframe_ms) as u64;
            &&& schedule.slot_at(later) == schedule.slot_at(gateway_time_ms)
            &&& schedule.slot_elapsed_ms(later) == schedule.slot_elapsed_ms(gateway_time_ms)
            &&& schedule.is_active_window(later) == schedule.is_active_window(gateway_time_ms)
        }),
{
    vstd::arithmetic::div_mod::lemma_mod_add_multiples_vanish(
        gateway_time_ms as int,
        schedule.superframe_ms as int,
    );
}

/// Apart from the alarm retry slot, no slot of the demo schedule is open to
/// periodic frames of two roles, and none at all is open to those of the gateway.
pub proof fn law_slots_have_one_owner(
    role: NodeRole,
    frame_type: FrameType,
    other_role: NodeRole,
    other_type: FrameType,
    slot: u8,
)
    requires
        frame_type.is_periodic(),
        other_type.is_periodic(),
        TdmaSchedule::demo().slot_owner_ok(role, frame_type, slot),
        TdmaSchedule::demo().slot_owner_ok(other_role, other_type, slot),
    ensures
        role != NodeRole::Gateway,
        slot != TdmaSchedule::demo().alarm_retry_slot ==> role == other_role,
        slot == TdmaSchedule::demo().alarm_retry_slot ==> frame_type == FrameType::Alarm,
{
}

/// `x` is a signed 64-bit number, so nothing wraps around.
pub open spec fn fits_i64(x: int) -> bool {
    i64::MIN <= x <= i64::MAX
}

proof fn lemma_wrap_keeps_small(x: int)
    requires
        fits_i64(x),
    ensures
        tdma::wrap_i64(x) == x,
{
}

/// An eighth of seven parts `a` and one part `b` lies between `a` and `b`, an
/// eighth of the way from `a` to `b` up to rounding.
proof fn lemma_eighth_of_mix(a: int, b: int)
    ensures
        a <= b ==> a <= tdma::eighth(7 * a + b) <= b,
        b <= a ==> b <= tdma::eighth(7 * a + b) <= a,
        a <= b ==> 8 * (b - tdma::eighth(7 * a + b)) <= 7 * (b - a) + 8,
        b <= a ==> 8 * (tdma::eighth(7 * a + b) - b) <= 7 * (a - b) + 8,
{
}

/// The first SYNC sets the clock exactly: the node then reads the time that the
/// SYNC carried.
pub proof fn law_first_sync_is_exact(
    sync: TimeSync,
    sync_seq: u16,
    gateway_time_ms: u64,
    local_time_ms: u64,
)
    requires
        sync.last_sync_seq == 0,
        fits_i64(gateway_time_ms - local_time_ms),
    ensures
        sync.synced(sync_seq, gateway_time_ms, local_time_ms).gateway_time_ms(local_time_ms)
            == gateway_time_ms,
        sync.synced(sync_seq, gateway_time_ms, local_time_ms).offset_delta_ms == 0,
{
}

/// Later SYNCs change the offset smoothly: it stays between the old offset and
/// the measurement, and comes at least an eighth nearer to the measurement, up to
/// the rounding of one millisecond. The drift is the change of the measurement.
pub proof fn law_later_syncs_are_smooth(
    sync: TimeSync,
    sync_seq: u16,
    gateway_time_ms: u64,
    local_time_ms: u64,
)
    requires
        sync.last_sync_seq != 0,
        fits_i64(gateway_time_ms - local_time_ms),
        fits_i64(7 * sync.offset_ms + (gateway_time_ms - local_time_ms)),
        fits_i64(gateway_time_ms - local_time_ms - sync.last_measured_offset_ms),
    ensures
        ({
            let measured = gateway_time_ms - local_time_ms;
            let old_offset = sync.offset_ms as int;
            let after = sync.synced(sync_seq, gateway_time_ms, local_time_ms);
            &&& old_offset <= measured ==> old_offset <= after.offset_ms <= measured
            &&& measured <= old_offset ==> measured <= after.offset_ms <= old_offset
            &&& old_offset <= measured ==> 8 * (measured - after.offset_ms) <= 7 * (measured
                - old_offset) + 8
            &&& measured <= old_offset ==> 8 * (after.offset_ms - measured) <= 7 * (old_offset
                - measured) + 8
            &&& after.last_measured_offset_ms == measured
            &&& after.offset_delta_ms == measured - sync.last_measured_offset_ms
        }),
{
    let measured = gateway_time_ms - local_time_ms;
    lemma_wrap_keeps_small(measured);
    lemma_wrap_keeps_small(7 * sync.offset_ms + measured);
    lemma_wrap_keeps_small(measured - sync.last_measured_offset_ms);
    lemma_eighth_of_mix(sync.offset_ms as int, measured);
}

/// A node stays synced with each SYNC that carries a sequence number other than
/// zero.
pub proof fn law_synced_after_nonzero_sync(
    sync: TimeSync,
    sync_seq: u16,
    gateway_time_ms: u64,
    local_time_ms: u64,
)
    requires
        sync_seq != 0,
    ensures
        sync.synced(sync_seq, gateway_time_ms, local_time_ms).last_sync_seq != 0,
{
}

/// The local view of the gateway's clock never runs backward between two SYNCs.
pub proof fn law_gateway_time_is_monotonic(sync: TimeSync, earlier_ms: u64, later_ms: u64)
    requires
        earlier_ms <= later_ms,
    ensures
        sync.gateway_time_ms(earlier_ms) <= sync.gateway_time_ms(later_ms),
{
}

/// Times are divided by plain division: the slot number is that of whole slots since
/// the superframe began, in 8 bits, and what remains is the time in the slot. The
/// active window follows the leading guard. The next slot begins when the slot's
/// length is over.
pub proof fn law_slots_are_plain_division(schedule: TdmaSchedule, gateway_time_ms: u64)
    requires
        schedule.superframe_ms > 0,
        schedule.slot_ms > 0,
    ensures
        ({
            let since = gateway_time_ms as int % schedule.superframe_ms as int;
            let elapsed = since % schedule.slot_ms as int;
            &&& schedule.slot_at(gateway_time_ms) == since / schedule.slot_ms as int % 256
            &&& schedule.slot_elapsed_ms(gateway_time_ms) == elapsed
            &&& schedule.next_slot_delay_ms(gateway_time_ms) == schedule.slot_ms - elapsed
            &&& schedule.guard_before_ms + schedule.active_ms <= u32::MAX
                ==> schedule.is_active_window(gateway_time_ms) == (schedule.guard_before_ms
                <= elapsed < schedule.guard_before_ms + schedule.active_ms)
        }),
{
    let since = gateway_time_ms as int % schedule.superframe_ms as int;
    vstd::arithmetic::div_mod::lemma_mod_bound(
        gateway_time_ms as int,
        schedule.superframe_ms as int,
    );
    vstd::arithmetic::div_mod::lemma_mod_bound(since, schedule.slot_ms as int);
    assert(0 <= since / schedule.slot_ms as int % 256 < 256);
}

/// Which slots are open to which frames, whatever their numbers: readings of sensor
/// and relay in their data slots, heartbeats in their heartbeat slots, and an ALARM
/// of either in the retry slot too. The gateway sends none of these. All other
/// frames are open everywhere.
pub proof fn law_slots_are_open_to_their_owners(
    schedule: TdmaSchedule,
    role: NodeRole,
    frame_type: FrameType,
    slot: u8,
)
    ensures
        ({
            let open = schedule.slot_owner_ok(role, frame_type, slot);
            let reading = frame_type == FrameType::Data || frame_type == FrameType::Alarm;
            let repeats = frame_type == FrameType::Alarm && slot == schedule.alarm_retry_slot;
            &&& !reading && frame_type != FrameType::Heartbeat ==> open
            &&& reading && role == NodeRole::Sensor ==> open == (slot == schedule.sensor_slot
                || repeats)
            &&& reading && role == NodeRole::Relay ==> open == (slot == schedule.relay_slot
                || repeats)
            &&& frame_type == FrameType::Heartbeat && role == NodeRole::Sensor ==> open == (slot
                == schedule.sensor_heartbeat_slot)
            &&& frame_type == FrameType::Heartbeat && role == NodeRole::Relay ==> open == (slot
                == schedule.relay_heartbeat_slot)
            &&& (reading || frame_type == FrameType::Heartbeat) && role == NodeRole::Gateway
                ==> !open
        }),
{
}

/// The time that a node reads is its own and its offset, as long as that is a time.
pub proof fn law_time_is_clock_and_offset(sync: TimeSync, local_time_ms: u64)
    ensures
        0 <= local_time_ms + sync.offset_ms <= u64::MAX ==> sync.gateway_time_ms(local_time_ms)
            == local_time_ms + sync.offset_ms,
        local_time_ms + sync.offset_ms < 0 ==> sync.gateway_time_ms(local_time_ms) == 0,
        local_time_ms + sync.offset_ms > u64::MAX ==> sync.gateway_time_ms(local_time_ms)
            == u64::MAX,
{
}

} // verus!
