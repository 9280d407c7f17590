//! TDMA schedule and clock synchronization.

use vstd::prelude::*;

use crate::protocol::FrameType;
use crate::role::NodeRole;

verus! {

/// Division of time into superframes, and of each superframe into slots. A slot
/// starts and ends with a guard during which nobody sends.
#[derive(Debug, Clone, Copy, PartialEq, Eq, Structural)]
pub struct TdmaSchedule {
    pub schedule_version: u8,
    pub superframe_ms: u32,
    pub slot_ms: u32,
    pub guard_before_ms: u32,
    pub active_ms: u32,
    pub slot_count: u8,
    pub sync_slot: u8,
    pub relay_control_slot: u8,
    pub sensor_slot: u8,
    pub relay_slot: u8,
    pub alarm_retry_slot: u8,
    pub relay_heartbeat_slot: u8,
    pub sensor_heartbeat_slot: u8,
    pub quiet_slot: u8,
}

impl TdmaSchedule {
    pub open spec fn spec_demo() -> TdmaSchedule {
        TdmaSchedule {
            schedule_version: 1,
            superframe_ms: 8_000,
            slot_ms: 1_000,
            guard_before_ms: 100,
            active_ms: 700,
            slot_count: 8,
            sync_slot: 0,
            relay_control_slot: 1,
            sensor_slot: 2,
            relay_slot: 3,
            alarm_retry_slot: 4,
            relay_heartbeat_slot: 5,
            sensor_heartbeat_slot: 6,
            quiet_slot: 7,
        }
    }

    /// The schedule of the demo network: eight slots of one second.
    #[verifier::when_used_as_spec(spec_demo)]
    pub fn demo() -> (schedule: TdmaSchedule)
        ensures
            schedule == Self::spec_demo(),
    {
        TdmaSchedule {
            schedule_version: 1,
            superframe_ms: 8_000,
            slot_ms: 1_000,
            guard_before_ms: 100,
            active_ms: 700,
            slot_count: 8,
            sync_slot: 0,
            relay_control_slot: 1,
            sensor_slot: 2,
            relay_slot: 3,
            alarm_retry_slot: 4,
            relay_heartbeat_slot: 5,
            sensor_heartbeat_slot: 6,
            quiet_slot: 7,
        }
    }

    /// Superframes and slots have a length, so that times can be divided into
    /// them.
    pub open spec fn divides_time(self) -> bool {
        self.superframe_ms > 0 && self.slot_ms > 0
    }

    /// Time since the start of the superframe.
    pub open spec fn superframe_elapsed(self, gateway_time_ms: int) -> int {
        gateway_time_ms % (self.superframe_ms as int)
    }

    /// How many slots of the superframe are over.
    pub open spec fn slot_index(self, gateway_time_ms: u64) -> int {
        self.superframe_elapsed(gateway_time_ms as int) / (self.slot_ms as int)
    }

    pub open spec fn spec_slot_at(self, gateway_time_ms: u64) -> u8 {
        (self.slot_index(gateway_time_ms) % 256) as u8
    }

    /// Number of the slot at a time. Of a slot number only the low 8 bits are
    /// kept.
    #[verifier::when_used_as_spec(spec_slot_at)]
    pub fn slot_at(self, gateway_time_ms: u64) -> (slot: u8)
        requires
            self.divides_time(),
        ensures
            slot == self.spec_slot_at(gateway_time_ms),
    {
        ((gateway_time_ms % self.superframe_ms as u64) / self.slot_ms as u64 % 256) as u8
    }

    pub open spec fn spec_slot_elapsed_ms(self, gateway_time_ms: u64) -> u32 {
        (self.superframe_elapsed(gateway_time_ms as int) % (self.slot_ms as int)) as u32
    }

    /// Time since the start of the slot.
    #[verifier::when_used_as_spec(spec_slot_elapsed_ms)]
    pub fn slot_elapsed_ms(self, gateway_time_ms: u64) -> (elapsed: u32)
        requires
            self.divides_time(),
        ensures
            elapsed == self.spec_slot_elapsed_ms(gateway_time_ms),
            elapsed < self.slot_ms,
    {
        ((gateway_time_ms % self.superframe_ms as u64) % self.slot_ms as u64) as u32
    }

    pub open spec fn spec_active_end_ms(self) -> u32 {
        ((self.guard_before_ms + self.active_ms) % 0x1_0000_0000) as u32
    }

    /// Where in a slot the active window ends: after the leading guard and the
    /// window, modulo 2^32.
    #[verifier::when_used_as_spec(spec_active_end_ms)]
    pub fn active_end_ms(self) -> (end: u32)
        ensures
            end == self.spec_active_end_ms(),
            self.guard_before_ms + self.active_ms <= u32::MAX ==> end == self.guard_before_ms
                + self.active_ms,
    {
        self.guard_before_ms.wrapping_add(self.active_ms)
    }

    pub open spec fn spec_is_active_window(self, gateway_time_ms: u64) -> bool {
        self.guard_before_ms <= self.slot_elapsed_ms(gateway_time_ms) < self.active_end_ms()
    }

    /// Whether sending is allowed at a time.
    #[verifier::when_used_as_spec(spec_is_active_window)]
    pub fn is_active_window(self, gateway_time_ms: u64) -> (active: bool)
        requires
            self.divides_time(),
        ensures
            active == self.spec_is_active_window(gateway_time_ms),
    {
        let elapsed: u32 = self.slot_elapsed_ms(gateway_time_ms);
        elapsed >= self.guard_before_ms && elapsed < self.active_end_ms()
    }

    pub open spec fn spec_next_slot_delay_ms(self, gateway_time_ms: u64) -> u32 {
        (self.slot_ms - self.slot_elapsed_ms(gateway_time_ms)) as u32
    }

    /// Time until the slot is over.
    #[verifier::when_used_as_spec(spec_next_slot_delay_ms)]
    pub fn next_slot_delay_ms(self, gateway_time_ms: u64) -> (delay: u32)
        requires
            self.divides_time(),
        ensures
            delay == self.spec_next_slot_delay_ms(gateway_time_ms),
            0 < delay <= self.slot_ms,
    {
        self.slot_ms - self.slot_elapsed_ms(gateway_time_ms)
    }

    /// Whether `slot` is one in which a node of this role sends periodic frames
    /// of this type: each of sensor and relay has a slot for data and first
    /// alarms and a slot for heartbeats, and both may repeat an alarm in the
    /// alarm retry slot. Other frame types are reactive and not bound to slots.
    pub open spec fn spec_slot_owner_ok(
        self,
        role: NodeRole,
        frame_type: FrameType,
        slot: u8,
    ) -> bool {
        match (frame_type, role) {
            (FrameType::Data, NodeRole::Sensor) => slot == self.sensor_slot,
            (FrameType::Data, NodeRole::Relay) => slot == self.relay_slot,
            (FrameType::Alarm, NodeRole::Sensor) => slot == self.sensor_slot || slot
                == self.alarm_retry_slot,
            (FrameType::Alarm, NodeRole::Relay) => slot == self.relay_slot || slot
                == self.alarm_retry_slot,
            (FrameType::Heartbeat, NodeRole::Sensor) => slot == self.sensor_heartbeat_slot,
            (FrameType::Heartbeat, NodeRole::Relay) => slot == self.relay_heartbeat_slot,
            (FrameType::Data, NodeRole::Gateway) => false,
            (FrameType::Alarm, NodeRole::Gateway) => false,
            (FrameType::Heartbeat, NodeRole::Gateway) => false,
            _ => true,
        }
    }

    /// Whether a node of this role may send a frame of this type in `slot`.
    #[verifier::when_used_as_spec(spec_slot_owner_ok)]
    pub fn slot_owner_ok(self, role: NodeRole, frame_type: FrameType, slot: u8) -> (ok: bool)
        ensures
            ok == self.spec_slot_owner_ok(role, frame_type, slot),
    {
        match (frame_type, role) {
            (FrameType::Data, NodeRole::Sensor) => slot == self.sensor_slot,
            (FrameType::Data, NodeRole::Relay) => slot == self.relay_slot,
            (FrameType::Alarm, NodeRole::Sensor) => slot == self.sensor_slot || slot
                == self.alarm_retry_slot,
            (FrameType::Alarm, NodeRole::Relay) => slot == self.relay_slot || slot
                == self.alarm_retry_slot,
            (FrameType::Heartbeat, NodeRole::Sensor) => slot == self.sensor_heartbeat_slot,
            (FrameType::Heartbeat, NodeRole::Relay) => slot == self.relay_heartbeat_slot,
            (FrameType::Data, NodeRole::Gateway) => false,
            (FrameType::Alarm, NodeRole::Gateway) => false,
            (FrameType::Heartbeat, NodeRole::Gateway) => false,
            _ => true,
        }
    }

    /// How many slots a superframe holds.
    pub open spec fn slots(self) -> int {
        self.superframe_ms as int / self.slot_ms as int
    }

    /// The slots of a superframe fill it exactly.
    pub open spec fn is_regular(self) -> bool {
        self.divides_time() && self.superframe_ms as int % self.slot_ms as int == 0
    }
}

/// The signed 64-bit number that is `x` modulo 2^64.
pub open spec fn wrap_i64(x: int) -> i64 {
    let low = x % 0x1_0000_0000_0000_0000;
    if low <= i64::MAX {
        low as i64
    } else {
        (low - 0x1_0000_0000_0000_0000) as i64
    }
}

/// An eighth of `x`, rounded toward zero.
pub open spec fn eighth(x: int) -> int {
    if x >= 0 {
        x / 8
    } else {
        -((-x) / 8)
    }
}

/// How far the gateway's clock is ahead of the local one.
pub open spec fn measured_offset(gateway_time_ms: u64, local_time_ms: u64) -> i64 {
    wrap_i64(gateway_time_ms - local_time_ms)
}

/// Clock state of a node: its estimate of the gateway's clock.
///
/// Differences and sums of clock values wrap around at 64 bits.
#[derive(Debug, Clone, Copy, PartialEq, Eq, Structural)]
pub struct TimeSync {
    pub last_sync_seq: u16,
    pub offset_ms: i64,
    pub last_measured_offset_ms: i64,
    pub offset_delta_ms: i64,
    pub hop: u8,
}

impl TimeSync {
    pub open spec fn spec_new(hop: u8) -> TimeSync {
        TimeSync {
            last_sync_seq: 0,
            offset_ms: 0,
            last_measured_offset_ms: 0,
            offset_delta_ms: 0,
            hop,
        }
    }

    /// Clock state before the first SYNC.
    #[verifier::when_used_as_spec(spec_new)]
    pub fn new(hop: u8) -> (sync: TimeSync)
        ensures
            sync == Self::spec_new(hop),
    {
        TimeSync {
            last_sync_seq: 0,
            offset_ms: 0,
            last_measured_offset_ms: 0,
            offset_delta_ms: 0,
            hop,
        }
    }

    /// Clock state after a SYNC. The first one is taken as it is; from then on
    /// the offset moves an eighth of the way to each measurement, and the change
    /// between two measurements is kept as the drift.
    pub open spec fn synced(
        self,
        sync_seq: u16,
        gateway_time_ms: u64,
        local_time_ms: u64,
    ) -> TimeSync {
        let measured = measured_offset(gateway_time_ms, local_time_ms);
        let first = self.last_sync_seq == 0;
        TimeSync {
            last_sync_seq: sync_seq,
            offset_ms: if first {
                measured
            } else {
                eighth(wrap_i64(self.offset_ms * 7 + measured) as int) as i64
            },
            last_measured_offset_ms: measured,
            offset_delta_ms: if first {
                0
            } else {
                wrap_i64(measured - self.last_measured_offset_ms)
            },
            hop: self.hop,
        }
    }

    /// Apply a SYNC that was sent at `gateway_time_ms` and received at
    /// `local_time_ms`.
    pub fn apply_sync(&mut self, sync_seq: u16, gateway_time_ms: u64, local_time_ms: u64)
        ensures
            *final(self) == old(self).synced(sync_seq, gateway_time_ms, local_time_ms),
    {
        let measured: i64 = wrap_difference(gateway_time_ms, local_time_ms);
        if self.last_sync_seq == 0 {
            self.offset_delta_ms = 0;
            self.offset_ms = measured;
        } else {
            proof {
                lemma_wrap_sub(measured, self.last_measured_offset_ms);
                lemma_wrap_smoothing(self.offset_ms, measured);
            }
            self.offset_delta_ms = measured.wrapping_sub(self.last_measured_offset_ms);
            let weighted: i64 = self.offset_ms.wrapping_mul(7).wrapping_add(measured);
            self.offset_ms = eighth_of(weighted);
        }
        self.last_measured_offset_ms = measured;
        self.last_sync_seq = sync_seq;
    }

    pub open spec fn spec_gateway_time_ms(self, local_time_ms: u64) -> u64 {
        if local_time_ms + self.offset_ms < 0 {
            0
        } else if local_time_ms + self.offset_ms > u64::MAX {
            u64::MAX
        } else {
            (local_time_ms + self.offset_ms) as u64
        }
    }

    /// The gateway's time at a local time, kept within 64 bits.
    #[verifier::when_used_as_spec(spec_gateway_time_ms)]
    pub fn gateway_time_ms(self, local_time_ms: u64) -> (time: u64)
        ensures
            time == self.spec_gateway_time_ms(local_time_ms),
    {
        if self.offset_ms >= 0 {
            local_time_ms.saturating_add(self.offset_ms as u64)
        } else {
            let behind: u64 = (-(self.offset_ms + 1)) as u64 + 1;
            local_time_ms.saturating_sub(behind)
        }
    }
}

/// `a - b` as a signed number, modulo 2^64.
fn wrap_difference(a: u64, b: u64) -> (difference: i64)
    ensures
        difference == wrap_i64(a - b),
{
    let low: u64 = a.wrapping_sub(b);
    if low <= i64::MAX as u64 {
        low as i64
    } else {
        -((u64::MAX - low) as i64) - 1
    }
}

/// An eighth of `x`, rounded toward zero.
fn eighth_of(x: i64) -> (part: i64)
    ensures
        part == eighth(x as int),
{
    if x >= 0 {
        x / 8
    } else {
        let magnitude: u64 = (-(x + 1)) as u64 + 1;
        -((magnitude / 8) as i64)
    }
}

proof fn lemma_wrap_sub(a: i64, b: i64)
    ensures
        vstd::wrapping::i64_specs::wrapping_sub(a, b) == wrap_i64(a - b),
{
}

proof fn lemma_wrap_smoothing(offset: i64, measured: i64)
    ensures
        vstd::wrapping::i64_specs::wrapping_add(
            vstd::wrapping::i64_specs::wrapping_mul(offset, 7),
            measured,
        ) == wrap_i64(offset * 7 + measured),
{
    let product = vstd::wrapping::i64_specs::wrapping_mul(offset, 7);
    let range = 0x1_0000_0000_0000_0000int;
    assert((offset * 7 - product) % range == 0);
    assert((product + measured) % range == (offset * 7 + measured) % range) by {
        vstd::arithmetic::div_mod::lemma_fundamental_div_mod(offset * 7 - product, range);
        let k = (offset * 7 - product) / range;
        vstd::arithmetic::div_mod::lemma_mod_multiples_vanish(k, product + measured, range);
    }
}

} // verus!
