//! What a node makes of a frame: what it keeps, answers and reports, by role,
//! frame type and payload, in plain numbers.

use vstd::prelude::*;

use crate::core_state::{CoreState, FrameReport};
use crate::demo::{FrameAction, NetworkPhase, NodeState};
use crate::demo_log::{BuzzerAction, GatewayRxDataLog, GatewayStats};
use crate::liveness::GatewayHeartbeatView;
use crate::pending::PendingView;
use crate::protocol::{FrameType, FrameView};
use crate::role::NodeRole;
use crate::tdma::{TdmaSchedule, TimeSync};
use crate::{bytes, payload, pending, protocol, tdma, timer_laws};

verus! {

/// Two bytes as a number, the low byte first.
pub open spec fn le16(payload: Seq<u8>, at: int) -> int {
    payload[at] + 256 * payload[at + 1]
}

/// Four bytes as a number, the low byte first.
pub open spec fn le32(payload: Seq<u8>, at: int) -> int {
    le16(payload, at) + 0x1_0000 * le16(payload, at + 2)
}

/// Two bytes as a signed number in two's complement, the low byte first.
pub open spec fn signed16(payload: Seq<u8>, at: int) -> int {
    if payload[at + 1] < 0x80 {
        le16(payload, at)
    } else {
        le16(payload, at) - 0x1_0000
    }
}

/// A number within 64 bits with sign that differs from `x` by a multiple of 2^64.
pub open spec fn wrapped(x: int) -> int {
    (x + 0x8000_0000_0000_0000) % 0x1_0000_0000_0000_0000 - 0x8000_0000_0000_0000
}

/// A frame of this network that is meant for the node or for all.
pub open spec fn is_for(node: NodeState, frame: FrameView) -> bool {
    frame.net_id == 0x4331 && (frame.dst_id == timer_laws::id_of(node.role) || frame.dst_id == 0xff)
}

/// A node that knows the time minds the slots of DATA, ALARM and HEARTBEAT: the
/// relay sends readings in slot 3 and heartbeats in slot 5, the sensor readings in
/// slot 2 and heartbeats in slot 6, both repeat an ALARM in slot 4, and the gateway
/// sends none of these.
pub open spec fn is_in_slot(node: NodeState, frame: FrameView) -> bool {
    let slot = timer_laws::slot_number(node.schedule, frame.gateway_time_ms);
    let alarm = frame.frame_type == FrameType::Alarm;
    let reading = alarm || frame.frame_type == FrameType::Data;
    let heartbeat = frame.frame_type == FrameType::Heartbeat;
    ||| node.role != NodeRole::Gateway && node.sync.last_sync_seq == 0
    ||| !reading && !heartbeat
    ||| reading && frame.node_role == NodeRole::Relay && (slot == 3 || alarm && slot == 4)
    ||| reading && frame.node_role == NodeRole::Sensor && (slot == 2 || alarm && slot == 4)
    ||| heartbeat && frame.node_role == NodeRole::Relay && slot == 5
    ||| heartbeat && frame.node_role == NodeRole::Sensor && slot == 6
}

/// A counter after `more` events; it stays at its limit.
pub open spec fn plus(counter: u32, more: int) -> u32 {
    if counter + more > 0xffff_ffff {
        0xffff_ffff
    } else {
        (counter + more) as u32
    }
}

/// How many readings are missing between two origin sequence numbers.
pub open spec fn missing(last: Option<u16>, origin_seq: u16) -> int {
    match last {
        Some(last_seq) => if origin_seq == last_seq {
            0
        } else {
            (origin_seq - last_seq - 1) % 0x1_0000
        },
        None => 0,
    }
}

pub proof fn lemma_le16(payload: Seq<u8>, at: int)
    requires
        0 <= at,
        at + 2 <= payload.len(),
    ensures
        bytes::le_value(payload.subrange(at, at + 2)) == le16(payload, at),
        0 <= le16(payload, at) < 0x1_0000,
{
    bytes::lemma_le_value_2(payload.subrange(at, at + 2));
}

pub proof fn lemma_le32(payload: Seq<u8>, at: int)
    requires
        0 <= at,
        at + 4 <= payload.len(),
    ensures
        bytes::le_value(payload.subrange(at, at + 4)) == le32(payload, at),
        0 <= le32(payload, at) < 0x1_0000_0000,
{
    let all = payload.subrange(at, at + 4);
    bytes::lemma_le_value_split(all, 2);
    bytes::lemma_pow256_values();
    lemma_le16(payload, at);
    lemma_le16(payload, at + 2);
    assert(all.take(2) =~= payload.subrange(at, at + 2));
    assert(all.skip(2) =~= payload.subrange(at + 2, at + 4));
}

/// A core that can take a frame: it is valid, and where it minds the frame's slot its
/// schedule has slots.
pub open spec fn can_take(core: CoreState, frame: FrameView) -> bool {
    let minds = (core.node.role == NodeRole::Gateway || core.node.sync.last_sync_seq != 0) && (
    frame.frame_type == FrameType::Data || frame.frame_type == FrameType::Alarm
        || frame.frame_type == FrameType::Heartbeat);
    core.is_valid() && (minds ==> core.node.schedule.superframe_ms > 0
        && core.node.schedule.slot_ms > 0)
}

/// Slots, as a node minds them, are those of plain division.
proof fn lemma_slots_minded(core: CoreState, frame: FrameView)
    requires
        can_take(core, frame),
    ensures
        core.node.accepts_slot_of(frame) == is_in_slot(core.node, frame),
        core.node.schedule.superframe_ms > 0 && core.node.schedule.slot_ms > 0
            ==> core.node.schedule.slot_at(frame.gateway_time_ms) == timer_laws::slot_number(
            core.node.schedule,
            frame.gateway_time_ms,
        ),
{
    let schedule = core.node.schedule;
    if schedule.superframe_ms > 0 && schedule.slot_ms > 0 {
        let since = frame.gateway_time_ms as int % schedule.superframe_ms as int;
        assert(0 <= since / schedule.slot_ms as int % 256 < 256);
    }
}

/// What payloads say, byte by byte. One that is too short says nothing; bytes
/// behind the last that is asked for do not matter.
pub proof fn law_payloads_are_read_byte_by_byte(payload: Seq<u8>)
    ensures
        payload::read_join_ack(payload) == (if payload.len() >= 3 {
            Some((payload[0], payload[1], payload[2]))
        } else {
            None
        }),
        payload::read_sync(payload) == (if payload.len() >= 15 {
            Some(
                (
                    le16(payload, 0) as u16,
                    payload[2],
                    le32(payload, 3) as u32,
                    le32(payload, 7) as u32,
                    le16(payload, 11) as u32,
                    le16(payload, 13) as u32,
                ),
            )
        } else {
            None
        }),
        payload::read_data(payload) == (if payload.len() >= 7 {
            Some(
                (
                    payload[0],
                    le16(payload, 1) as u16,
                    signed16(payload, 3) as i16,
                    le16(payload, 5) as u16,
                ),
            )
        } else {
            None
        }),
        payload::read_ack(payload) == (if payload.len() >= 3 && 1 <= payload[2] <= 8 {
            Some(
                (
                    le16(payload, 0) as u16,
                    match payload[2] {
                        1 => FrameType::Hello,
                        2 => FrameType::JoinAck,
                        3 => FrameType::Sync,
                        4 => FrameType::Schedule,
                        5 => FrameType::Data,
                        6 => FrameType::Alarm,
                        7 => FrameType::Ack,
                        _ => FrameType::Heartbeat,
                    },
                ),
            )
        } else {
            None
        }),
        payload::read_heartbeat(payload) == (if payload.len() >= 4 {
            Some(
                (
                    payload[0],
                    payload[1],
                    le16(payload, 2) as u16,
                    if payload.len() >= 5 {
                        payload[4]
                    } else {
                        0
                    },
                ),
            )
        } else {
            None
        }),
{
    if payload.len() >= 3 {
        lemma_le16(payload, 0);
    }
    if payload.len() >= 4 {
        lemma_le16(payload, 2);
    }
    if payload.len() >= 7 {
        lemma_le16(payload, 1);
        lemma_le16(payload, 3);
        lemma_le16(payload, 5);
    }
    if payload.len() >= 15 {
        lemma_le32(payload, 3);
        lemma_le32(payload, 7);
        lemma_le16(payload, 11);
        lemma_le16(payload, 13);
    }
}

/// A frame that claims a slot that is not its sender's is counted and reported with
/// that slot, and otherwise leaves no trace.
pub proof fn law_frame_in_foreign_slot_is_dropped(
    core: CoreState,
    frame: FrameView,
    local_time_ms: u64,
)
    requires
        can_take(core, frame),
        !is_in_slot(core.node, frame),
    ensures
        ({
            let step = core.frame_step(frame, local_time_ms);
            &&& step.sends.len() == 0
            &&& step.report == FrameReport::OutOfSlot {
                claimed_slot: timer_laws::slot_number(
                    core.node.schedule,
                    frame.gateway_time_ms,
                ) as u8,
            }
            &&& step.state == CoreState {
                stats: GatewayStats {
                    slot_violations: plus(core.stats.slot_violations, 1),
                    ..core.stats
                },
                ..core
            }
        }),
{
    lemma_slots_minded(core, frame);
}

/// A frame other than HELLO that is of another network, or meant for another node,
/// leaves no trace.
pub proof fn law_frame_for_others_leaves_no_trace(
    core: CoreState,
    frame: FrameView,
    local_time_ms: u64,
)
    requires
        can_take(core, frame),
        is_in_slot(core.node, frame),
        !is_for(core.node, frame),
        frame.frame_type != FrameType::Hello,
    ensures
        core.frame_step(frame, local_time_ms).sends.len() == 0,
        core.frame_step(frame, local_time_ms).report == FrameReport::Nothing,
        core.frame_step(frame, local_time_ms).state == core,
{
    lemma_slots_minded(core, frame);
}

/// The gateway admits every relay that says HELLO: it answers with a JOIN_ACK to
/// the sender, which names the gateway as parent, one hop more than its own, and
/// slot 3. A sensor whose HELLO comes through the relay is noted, and any other
/// HELLO is refused; neither is answered.
pub proof fn law_gateway_answers_hello(core: CoreState, frame: FrameView, local_time_ms: u64)
    requires
        can_take(core, frame),
        core.node.role == NodeRole::Gateway,
        frame.frame_type == FrameType::Hello,
    ensures
        ({
            let step = core.frame_step(frame, local_time_ms);
            let seq = timer_laws::next(core.node.seq);
            if frame.node_role == NodeRole::Relay {
                &&& step.sends.len() == 1
                &&& timer_laws::is_sent_by(
                    step.sends[0],
                    core.node,
                    local_time_ms,
                    frame.src_id,
                    FrameType::JoinAck,
                    seq,
                )
                &&& core.node.hop < 0xff ==> step.sends[0].payload == seq![
                    1u8,
                    (core.node.hop + 1) as u8,
                    3u8,
                ]
                &&& step.report == FrameReport::ChildAdmitted
                &&& step.state == CoreState { node: NodeState { seq, ..core.node }, ..core }
            } else {
                &&& step.sends.len() == 0
                &&& step.state == core
                &&& step.report == if frame.node_role == NodeRole::Sensor && frame.hop >= 1
                    && frame.dst_id == 1 {
                    FrameReport::SensorAnnounced
                } else {
                    FrameReport::HelloRefused
                }
            }
        }),
{
    lemma_slots_minded(core, frame);
}

/// The relay admits every sensor that says HELLO: it answers with a JOIN_ACK to the
/// sender, which names the relay as parent, one hop more than its own, and slot 2,
/// and then passes the HELLO on to the gateway with the relay's own hop. It does
/// not answer any other HELLO.
pub proof fn law_relay_answers_hello(core: CoreState, frame: FrameView, local_time_ms: u64)
    requires
        can_take(core, frame),
        core.node.role == NodeRole::Relay,
        frame.frame_type == FrameType::Hello,
    ensures
        ({
            let step = core.frame_step(frame, local_time_ms);
            let seq = timer_laws::next(core.node.seq);
            if frame.node_role == NodeRole::Sensor {
                &&& step.sends.len() == 2
                &&& timer_laws::is_sent_by(
                    step.sends[0],
                    core.node,
                    local_time_ms,
                    frame.src_id,
                    FrameType::JoinAck,
                    seq,
                )
                &&& core.node.hop < 0xff ==> step.sends[0].payload == seq![
                    2u8,
                    (core.node.hop + 1) as u8,
                    2u8,
                ]
                &&& step.sends[1] == FrameView { dst_id: 1, hop: core.node.hop, ..frame }
                &&& step.report == FrameReport::ChildAdmitted
                &&& step.state == CoreState { node: NodeState { seq, ..core.node }, ..core }
            } else {
                &&& step.sends.len() == 0
                &&& step.report == FrameReport::Nothing
                &&& step.state == core
            }
        }),
{
    lemma_slots_minded(core, frame);
}

/// A JOIN_ACK for a node gives it the parent, hop and slot that it says, and with
/// that the node has joined. A node joins only so: no other frame changes its
/// place.
pub proof fn law_join_ack_gives_the_place(core: CoreState, frame: FrameView, local_time_ms: u64)
    requires
        can_take(core, frame),
        frame.frame_type == FrameType::JoinAck,
        is_for(core.node, frame),
    ensures
        ({
            let step = core.frame_step(frame, local_time_ms);
            let said = frame.payload;
            &&& step.sends.len() == 0
            &&& said.len() < 3 ==> step.state == core && step.report == FrameReport::Nothing
            &&& said.len() >= 3 ==> step.state == CoreState {
                node: NodeState {
                    parent_id: Some(said[0]),
                    hop: said[1],
                    slot_id: said[2],
                    phase: NetworkPhase::Joined,
                    sync: TimeSync { hop: said[1], ..core.node.sync },
                    ..core.node
                },
                ..core
            }
            &&& said.len() >= 3 && core.node.role != NodeRole::Gateway ==> step.report
                == FrameReport::Joined { parent_id: said[0], hop: said[1], slot_id: said[2] }
        }),
{
    lemma_slots_minded(core, frame);
    law_payloads_are_read_byte_by_byte(frame.payload);
}

/// No frame but a JOIN_ACK changes a node's parent, hop, slot or phase.
pub proof fn law_only_join_ack_changes_the_place(
    core: CoreState,
    frame: FrameView,
    local_time_ms: u64,
)
    requires
        can_take(core, frame),
        frame.frame_type != FrameType::JoinAck,
    ensures
        ({
            let node = core.frame_step(frame, local_time_ms).state.node;
            &&& node.role == core.node.role
            &&& node.parent_id == core.node.parent_id
            &&& node.hop == core.node.hop
            &&& node.slot_id == core.node.slot_id
            &&& node.phase == core.node.phase
        }),
{
}

/// The clock after a SYNC that says `sync_seq`, by how far the gateway's time in it
/// is ahead of the local time: the first one sets the offset, and every later one
/// moves it an eighth of the way and gives the drift between two measurements.
pub open spec fn clock_set(
    clock: TimeSync,
    sync_seq: u16,
    gateway_time_ms: u64,
    local_time_ms: u64,
) -> TimeSync {
    let measured = wrapped(gateway_time_ms - local_time_ms);
    let sum = wrapped(7 * clock.offset_ms + measured);
    TimeSync {
        last_sync_seq: sync_seq,
        offset_ms: (if clock.last_sync_seq == 0 {
            measured
        } else if sum < 0 {
            -((-sum) / 8)
        } else {
            sum / 8
        }) as i64,
        last_measured_offset_ms: measured as i64,
        offset_delta_ms: (if clock.last_sync_seq == 0 {
            0
        } else {
            wrapped(measured - clock.last_measured_offset_ms)
        }) as i64,
        hop: clock.hop,
    }
}

proof fn lemma_wrapped(x: int)
    ensures
        tdma::wrap_i64(x) == wrapped(x),
        i64::MIN <= wrapped(x) <= i64::MAX,
{
    let range = 0x1_0000_0000_0000_0000int;
    let half = 0x8000_0000_0000_0000int;
    vstd::arithmetic::div_mod::lemma_fundamental_div_mod(x, range);
    let q = x / range;
    let low = x % range;
    if low < half {
        vstd::arithmetic::div_mod::lemma_fundamental_div_mod_converse(
            x + half,
            range,
            q,
            low + half,
        );
    } else {
        vstd::arithmetic::div_mod::lemma_fundamental_div_mod_converse(
            x + half,
            range,
            q + 1,
            low - half,
        );
    }
}

proof fn lemma_clock_set(
    clock: TimeSync,
    sync_seq: u16,
    gateway_time_ms: u64,
    local_time_ms: u64,
)
    ensures
        clock.synced(sync_seq, gateway_time_ms, local_time_ms) == clock_set(
            clock,
            sync_seq,
            gateway_time_ms,
            local_time_ms,
        ),
{
    let measured = wrapped(gateway_time_ms - local_time_ms);
    lemma_wrapped(gateway_time_ms - local_time_ms);
    lemma_wrapped(7 * clock.offset_ms + measured);
    lemma_wrapped(measured - clock.last_measured_offset_ms);
}

/// A node other than the gateway follows every SYNC and SCHEDULE that is for it and
/// long enough, whoever sent it and whatever the node has heard before.
pub proof fn law_node_follows_every_sync(node: NodeState, frame: FrameView, local_time_ms: u64)
    requires
        frame.frame_type == FrameType::Sync || frame.frame_type == FrameType::Schedule,
        is_for(node, frame),
    ensures
        ({
            let said = frame.payload;
            let sync_seq = le16(said, 0) as u16;
            let sync = clock_set(node.sync, sync_seq, frame.gateway_time_ms, local_time_ms);
            let after = node.after_frame(frame, local_time_ms);
            let action = node.reaction(frame, local_time_ms);
            if node.role == NodeRole::Gateway || said.len() < 15 {
                after == node && action == FrameAction::Ignore
            } else {
                &&& action == FrameAction::Synced { sync_seq, offset_ms: sync.offset_ms }
                &&& after == NodeState {
                    sync,
                    sync_seq,
                    schedule: TdmaSchedule {
                        schedule_version: said[2],
                        superframe_ms: le32(said, 3) as u32,
                        slot_ms: le32(said, 7) as u32,
                        guard_before_ms: le16(said, 11) as u32,
                        active_ms: le16(said, 13) as u32,
                        ..node.schedule
                    },
                    ..node
                }
            }
        }),
{
    law_payloads_are_read_byte_by_byte(frame.payload);
    lemma_clock_set(
        node.sync,
        le16(frame.payload, 0) as u16,
        frame.gateway_time_ms,
        local_time_ms,
    );
}

/// Relay and sensor follow every SYNC and SCHEDULE that is for them, whoever sent
/// it and however many came before: they set their clock by its time, and take over
/// its sync sequence number and schedule. The relay keeps the frame to pass it on.
/// The gateway heeds none.
pub proof fn law_every_sync_is_followed(core: CoreState, frame: FrameView, local_time_ms: u64)
    requires
        can_take(core, frame),
        frame.frame_type == FrameType::Sync || frame.frame_type == FrameType::Schedule,
        is_for(core.node, frame),
    ensures
        ({
            let step = core.frame_step(frame, local_time_ms);
            let said = frame.payload;
            let sync_seq = le16(said, 0) as u16;
            let sync = clock_set(core.node.sync, sync_seq, frame.gateway_time_ms, local_time_ms);
            &&& step.sends.len() == 0
            &&& if core.node.role == NodeRole::Gateway || said.len() < 15 {
                step.state == core && step.report == FrameReport::Nothing
            } else {
                &&& step.report == if core.node.role == NodeRole::Relay {
                    FrameReport::SyncQueued { sync_seq, offset_ms: sync.offset_ms }
                } else {
                    FrameReport::Synced { sync_seq, offset_ms: sync.offset_ms }
                }
                &&& step.state == CoreState {
                    node: NodeState {
                        sync,
                        sync_seq,
                        schedule: TdmaSchedule {
                            schedule_version: said[2],
                            superframe_ms: le32(said, 3) as u32,
                            slot_ms: le32(said, 7) as u32,
                            guard_before_ms: le16(said, 11) as u32,
                            active_ms: le16(said, 13) as u32,
                            ..core.node.schedule
                        },
                        ..core.node
                    },
                    sync_forward: if core.node.role == NodeRole::Relay {
                        Some(frame)
                    } else {
                        core.sync_forward
                    },
                    ..core
                }
            }
        }),
{
    lemma_slots_minded(core, frame);
    law_node_follows_every_sync(core.node, frame, local_time_ms);
}

/// Where nothing overflows, a node's clock after a SYNC that is not its first is
/// this: the measurement is the gateway's time less the local time, the drift is
/// the change since the last measurement, and the offset is seven eighths of the
/// old one and one eighth of the measurement, rounded toward zero. With its first
/// SYNC the offset is the measurement.
pub proof fn law_clock_moves_an_eighth(node: NodeState, frame: FrameView, local_time_ms: u64)
    requires
        node.role != NodeRole::Gateway,
        frame.frame_type == FrameType::Sync || frame.frame_type == FrameType::Schedule,
        is_for(node, frame),
        frame.payload.len() >= 15,
        i64::MIN <= frame.gateway_time_ms - local_time_ms <= i64::MAX,
        i64::MIN <= 7 * node.sync.offset_ms + (frame.gateway_time_ms - local_time_ms) <= i64::MAX,
        i64::MIN <= (frame.gateway_time_ms - local_time_ms) - node.sync.last_measured_offset_ms
            <= i64::MAX,
    ensures
        ({
            let measured = frame.gateway_time_ms - local_time_ms;
            let sum = 7 * node.sync.offset_ms + measured;
            let clock = node.after_frame(frame, local_time_ms).sync;
            &&& clock.last_sync_seq == le16(frame.payload, 0)
            &&& clock.last_measured_offset_ms == measured
            &&& node.sync.last_sync_seq == 0 ==> clock.offset_ms == measured
                && clock.offset_delta_ms == 0
            &&& node.sync.last_sync_seq != 0 ==> clock.offset_delta_ms == measured
                - node.sync.last_measured_offset_ms
            &&& node.sync.last_sync_seq != 0 && sum >= 0 ==> 8 * clock.offset_ms <= sum < 8
                * clock.offset_ms + 8
            &&& node.sync.last_sync_seq != 0 && sum <= 0 ==> 8 * clock.offset_ms - 8 < sum <= 8
                * clock.offset_ms
        }),
{
    law_payloads_are_read_byte_by_byte(frame.payload);
    lemma_le16(frame.payload, 0);
}

/// An ALARM or DATA that was heard before leaves no trace.
pub proof fn law_reading_heard_before_leaves_no_trace(
    core: CoreState,
    frame: FrameView,
    local_time_ms: u64,
)
    requires
        can_take(core, frame),
        is_in_slot(core.node, frame),
        frame.frame_type == FrameType::Data || frame.frame_type == FrameType::Alarm,
        core.node.last_data == Some((frame.src_id, frame.seq)),
    ensures
        core.frame_step(frame, local_time_ms).sends.len() == 0,
        core.frame_step(frame, local_time_ms).report == FrameReport::Nothing,
        core.frame_step(frame, local_time_ms).state == core,
{
    lemma_slots_minded(core, frame);
}

/// A new ALARM or DATA for the node, with a payload that is long enough.
pub open spec fn is_new_reading(node: NodeState, frame: FrameView) -> bool {
    &&& frame.frame_type == FrameType::Data || frame.frame_type == FrameType::Alarm
    &&& is_in_slot(node, frame)
    &&& is_for(node, frame)
    &&& node.last_data != Some((frame.src_id, frame.seq))
    &&& frame.payload.len() >= 7
}

/// The ACK for an ALARM: to its sender, with the ALARM's sequence number and type.
pub open spec fn is_ack_for(
    ack: FrameView,
    alarm: FrameView,
    node: NodeState,
    local_time_ms: u64,
) -> bool {
    &&& timer_laws::is_sent_by(
        ack,
        node,
        local_time_ms,
        alarm.src_id,
        FrameType::Ack,
        timer_laws::next(node.seq),
    )
    &&& payload::read_ack(ack.payload) == Some((alarm.seq, FrameType::Alarm))
}

/// Each new reading that reaches the gateway is counted, together with the readings
/// that are missing before it, and reported with what it says and the way it came.
/// An ALARM is acknowledged at once and turns the buzzer on; a DATA turns it off
/// where an ALARM had turned it on. A reading of the sensor through the relay
/// shows that both are there.
pub proof fn law_gateway_takes_new_readings(core: CoreState, frame: FrameView, local_time_ms: u64)
    requires
        can_take(core, frame),
        core.node.role == NodeRole::Gateway,
        is_new_reading(core.node, frame),
    ensures
        ({
            let step = core.frame_step(frame, local_time_ms);
            let said = frame.payload;
            let alarm = frame.frame_type == FrameType::Alarm;
            let origin_seq = le16(said, 1) as u16;
            let gap = missing(core.stats.last_origin_seq, origin_seq);
            let seq = timer_laws::next(core.node.seq);
            let seen = GatewayHeartbeatView {
                relay_last_seen: Some(local_time_ms),
                sensor_last_seen: Some(local_time_ms),
                ..core.liveness
            };
            let status = seen.status(local_time_ms, core.node.schedule);
            &&& alarm ==> step.sends.len() == 1 && is_ack_for(
                step.sends[0],
                frame,
                core.node,
                local_time_ms,
            )
            &&& !alarm ==> step.sends.len() == 0
            &&& step.report == FrameReport::ReadingReceived {
                log: GatewayRxDataLog {
                    frame_type: frame.frame_type,
                    gateway_time_ms: frame.gateway_time_ms,
                    origin_id: said[0],
                    origin_seq,
                    via_id: frame.src_id,
                    relay_seq: frame.seq,
                    hop: if frame.hop == 0xff {
                        0xff
                    } else {
                        (frame.hop + 1) as u8
                    },
                    temp_centi_c: signed16(said, 3) as i16,
                    humidity_centi_percent: le16(said, 5) as u16,
                    alarm,
                    ack_seq: if alarm {
                        Some(seq)
                    } else {
                        None
                    },
                    buzzer_action: if alarm {
                        BuzzerAction::On
                    } else if core.gateway_alarm_active {
                        BuzzerAction::Off
                    } else {
                        BuzzerAction::Unchanged
                    },
                    origin_seq_gap: if gap > 0 {
                        Some(gap as u16)
                    } else {
                        None
                    },
                },
            }
            &&& step.state == CoreState {
                node: NodeState {
                    seq: if alarm {
                        seq
                    } else {
                        core.node.seq
                    },
                    last_data: Some((frame.src_id, frame.seq)),
                    ..core.node
                },
                gateway_alarm_active: alarm,
                stats: GatewayStats {
                    rx_data: if alarm {
                        core.stats.rx_data
                    } else {
                        plus(core.stats.rx_data, 1)
                    },
                    rx_alarm: if alarm {
                        plus(core.stats.rx_alarm, 1)
                    } else {
                        core.stats.rx_alarm
                    },
                    tx_ack: if alarm {
                        plus(core.stats.tx_ack, 1)
                    } else {
                        core.stats.tx_ack
                    },
                    origin_seq_gap_total: plus(core.stats.origin_seq_gap_total, gap),
                    last_origin_seq: Some(origin_seq),
                    ..core.stats
                },
                liveness: if frame.node_role == NodeRole::Relay && said[0] == 3 {
                    GatewayHeartbeatView {
                        reported_relay: status.relay,
                        reported_sensor: status.sensor,
                        ..seen
                    }
                } else {
                    core.liveness
                },
                ..core
            }
        }),
{
    lemma_slots_minded(core, frame);
    law_payloads_are_read_byte_by_byte(frame.payload);
    payload::law_ack_payload_read_back(frame.seq, FrameType::Alarm);
    lemma_le16(frame.payload, 1);
}

/// The relay keeps each new reading for its slot. An ALARM is acknowledged at once
/// and kept in place of an older one. A DATA is kept behind the others; of more
/// than four the oldest is dropped. A reading of the sensor itself shows that the
/// sensor is there.
pub proof fn law_relay_keeps_new_readings(core: CoreState, frame: FrameView, local_time_ms: u64)
    requires
        can_take(core, frame),
        core.node.role == NodeRole::Relay,
        is_new_reading(core.node, frame),
    ensures
        ({
            let step = core.frame_step(frame, local_time_ms);
            let said = frame.payload;
            let alarm = frame.frame_type == FrameType::Alarm;
            let origin_id = said[0];
            let origin_seq = le16(said, 1) as u16;
            let temp_centi_c = signed16(said, 3) as i16;
            let humidity_centi_percent = le16(said, 5) as u16;
            &&& alarm ==> step.sends.len() == 1 && is_ack_for(
                step.sends[0],
                frame,
                core.node,
                local_time_ms,
            )
            &&& !alarm ==> step.sends.len() == 0
            &&& step.report == if alarm {
                FrameReport::AlarmQueued {
                    origin_id,
                    origin_seq,
                    temp_centi_c,
                    humidity_centi_percent,
                }
            } else {
                FrameReport::DataBuffered {
                    origin_id,
                    origin_seq,
                    temp_centi_c,
                    humidity_centi_percent,
                }
            }
            &&& step.state == CoreState {
                node: NodeState {
                    seq: if alarm {
                        timer_laws::next(core.node.seq)
                    } else {
                        core.node.seq
                    },
                    last_data: Some((frame.src_id, frame.seq)),
                    ..core.node
                },
                alarm_forward: if alarm {
                    Some(frame)
                } else {
                    core.alarm_forward
                },
                buffered: if alarm {
                    core.buffered
                } else if core.buffered.len() < 4 {
                    core.buffered.push(frame)
                } else {
                    core.buffered.subrange(1, 4).push(frame)
                },
                sensor_last_seen: if frame.node_role == NodeRole::Sensor && origin_id == 3 {
                    Some(timer_laws::time_read(core.node, local_time_ms))
                } else {
                    core.sensor_last_seen
                },
                ..core
            }
        }),
{
    lemma_slots_minded(core, frame);
    law_payloads_are_read_byte_by_byte(frame.payload);
    payload::law_ack_payload_read_back(frame.seq, FrameType::Alarm);
    if core.buffered.len() == 4 {
        assert(core.buffered.push(frame).skip(1) =~= core.buffered.subrange(1, 4).push(frame));
    }
}

/// A reading that the sensor hears, and one that is too short to be read, is
/// remembered as heard and otherwise leaves no trace.
pub proof fn law_useless_readings_are_only_remembered(
    core: CoreState,
    frame: FrameView,
    local_time_ms: u64,
)
    requires
        can_take(core, frame),
        frame.frame_type == FrameType::Data || frame.frame_type == FrameType::Alarm,
        is_in_slot(core.node, frame),
        is_for(core.node, frame),
        core.node.role == NodeRole::Sensor || frame.payload.len() < 7,
    ensures
        ({
            let step = core.frame_step(frame, local_time_ms);
            &&& step.sends.len() == 0
            &&& step.report == FrameReport::Nothing
            &&& step.state == CoreState {
                node: NodeState { last_data: Some((frame.src_id, frame.seq)), ..core.node },
                ..core
            }
        }),
{
    lemma_slots_minded(core, frame);
    law_payloads_are_read_byte_by_byte(frame.payload);
}

/// A HEARTBEAT is taken once. The gateway takes the relay's to show that those are
/// there whom it names: bit 2 of its last byte stands for the relay, and bit 3 for
/// the sensor. The relay takes the sensor's to show that the sensor is there, if it
/// names itself. Gateway and relay report what it says; the sensor ignores it.
pub proof fn law_heartbeats_show_who_is_there(
    core: CoreState,
    frame: FrameView,
    local_time_ms: u64,
)
    requires
        can_take(core, frame),
        frame.frame_type == FrameType::Heartbeat,
        is_in_slot(core.node, frame),
        is_for(core.node, frame),
        core.node.last_heartbeat != Some((frame.src_id, frame.seq)),
    ensures
        ({
            let step = core.frame_step(frame, local_time_ms);
            let said = frame.payload;
            let mask: u8 = if said.len() >= 5 {
                said[4]
            } else {
                0
            };
            let names_relay = mask as int / 4 % 2 == 1;
            let names_sensor = mask as int / 8 % 2 == 1;
            let readable = said.len() >= 4;
            let seen = GatewayHeartbeatView {
                relay_last_seen: if names_relay {
                    Some(local_time_ms)
                } else {
                    core.liveness.relay_last_seen
                },
                sensor_last_seen: if names_sensor {
                    Some(local_time_ms)
                } else {
                    core.liveness.sensor_last_seen
                },
                ..core.liveness
            };
            let status = seen.status(local_time_ms, core.node.schedule);
            &&& step.sends.len() == 0
            &&& step.report == if readable && core.node.role != NodeRole::Sensor {
                FrameReport::HeartbeatReceived {
                    slot_id: said[0],
                    hop: said[1],
                    sync_seq: le16(said, 2) as u16,
                    presence_mask: mask,
                }
            } else {
                FrameReport::Nothing
            }
            &&& step.state == CoreState {
                node: NodeState {
                    last_heartbeat: Some((frame.src_id, frame.seq)),
                    ..core.node
                },
                liveness: if core.node.role == NodeRole::Gateway && readable && frame.node_role
                    == NodeRole::Relay {
                    GatewayHeartbeatView {
                        reported_relay: status.relay,
                        reported_sensor: status.sensor,
                        ..seen
                    }
                } else {
                    core.liveness
                },
                sensor_last_seen: if core.node.role == NodeRole::Relay && readable
                    && frame.node_role == NodeRole::Sensor && names_sensor {
                    Some(timer_laws::time_read(core.node, local_time_ms))
                } else {
                    core.sensor_last_seen
                },
                ..core
            }
        }),
{
    lemma_slots_minded(core, frame);
    law_payloads_are_read_byte_by_byte(frame.payload);
    let mask: u8 = if frame.payload.len() >= 5 {
        frame.payload[4]
    } else {
        0
    };
    protocol::law_presence_bits(mask, NodeRole::Relay, NodeRole::Sensor);
    assert((mask & 4u8 != 0) == (mask / 4u8 % 2u8 == 1u8)) by (bit_vector);
    assert((mask & 8u8 != 0) == (mask / 8u8 % 2u8 == 1u8)) by (bit_vector);
}

/// A HEARTBEAT that was heard before leaves no trace.
pub proof fn law_heartbeat_heard_before_leaves_no_trace(
    core: CoreState,
    frame: FrameView,
    local_time_ms: u64,
)
    requires
        can_take(core, frame),
        is_in_slot(core.node, frame),
        frame.frame_type == FrameType::Heartbeat,
        core.node.last_heartbeat == Some((frame.src_id, frame.seq)),
    ensures
        core.frame_step(frame, local_time_ms).sends.len() == 0,
        core.frame_step(frame, local_time_ms).report == FrameReport::Nothing,
        core.frame_step(frame, local_time_ms).state == core,
{
    lemma_slots_minded(core, frame);
}

/// An ACK for relay or sensor ends the wait of the ALARM whose sequence number and
/// type it names, and of no other. It changes nothing else, and nothing at all at
/// the gateway.
pub proof fn law_ack_ends_the_wait(core: CoreState, frame: FrameView, local_time_ms: u64)
    requires
        can_take(core, frame),
        frame.frame_type == FrameType::Ack,
        is_for(core.node, frame),
    ensures
        ({
            let step = core.frame_step(frame, local_time_ms);
            let said = frame.payload;
            let readable = said.len() >= 3 && 1 <= said[2] <= 8;
            let named = readable && core.node.role != NodeRole::Gateway && said[2] == 6 && (
            core.pending.frame matches Some(alarm) && alarm.seq == le16(said, 0));
            &&& step.sends.len() == 0
            &&& step.state == CoreState {
                pending: PendingView {
                    frame: if named {
                        None
                    } else {
                        core.pending.frame
                    },
                    ..core.pending
                },
                ..core
            }
            &&& if readable && core.node.role != NodeRole::Gateway {
                step.report matches FrameReport::Acked { acked_seq, acked_type, cleared }
                    && acked_seq == le16(said, 0) && (acked_type == FrameType::Alarm) == (said[2]
                    == 6) && cleared == named
            } else {
                step.report == FrameReport::Nothing
            }
        }),
{
    lemma_slots_minded(core, frame);
    law_payloads_are_read_byte_by_byte(frame.payload);
    if frame.payload.len() >= 3 {
        lemma_le16(frame.payload, 0);
    }
}

/// The sensor ignores every HELLO.
pub proof fn law_sensor_ignores_hello(core: CoreState, frame: FrameView, local_time_ms: u64)
    requires
        can_take(core, frame),
        core.node.role == NodeRole::Sensor,
        frame.frame_type == FrameType::Hello,
    ensures
        core.frame_step(frame, local_time_ms).sends.len() == 0,
        core.frame_step(frame, local_time_ms).report == FrameReport::Nothing,
        core.frame_step(frame, local_time_ms).state == core,
{
    lemma_slots_minded(core, frame);
}

/// The origin sequence number of a frame is what its payload says as a reading, or its
/// own where the payload is too short for one.
pub proof fn law_origin_seq_is_in_the_payload(frame: FrameView)
    ensures
        pending::origin_seq_of(frame) == (if frame.payload.len() >= 7 {
            le16(frame.payload, 1)
        } else {
            frame.seq as int
        }),
{
    law_payloads_are_read_byte_by_byte(frame.payload);
    if frame.payload.len() >= 7 {
        lemma_le16(frame.payload, 1);
    }
}

} // verus!
