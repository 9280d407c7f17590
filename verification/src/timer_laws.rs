//! What a node does on its own: what it sends when its timer fires, by role,
//! slot and clock, in plain numbers.

use vstd::prelude::*;

use crate::alarm::{AlarmTransition, EnvironmentSample};
use crate::core_state::{CoreState, TimerReport};
use crate::demo::{NetworkPhase, NodeState};
use crate::demo_log::GatewayStats;
use crate::liveness::{GatewayHeartbeatView, GatewayNodeLiveness};
use crate::pending::PendingView;
use crate::protocol::{FrameType, FrameView};
use crate::role::NodeRole;
use crate::tdma::{TdmaSchedule, TimeSync};
use crate::{core_state, node_core, payload, protocol};

verus! {

/// The identifier of the node of a role.
pub open spec fn id_of(role: NodeRole) -> u8 {
    match role {
        NodeRole::Gateway => 1,
        NodeRole::Relay => 2,
        NodeRole::Sensor => 3,
    }
}

/// The sequence number after `seq`; they start over after 16 bits.
pub open spec fn next(seq: u16) -> u16 {
    ((seq + 1) % 0x1_0000) as u16
}

/// The gateway's time as a node reads it: its own clock and its offset, kept
/// within 64 bits.
pub open spec fn time_read(node: NodeState, local_time_ms: u64) -> u64 {
    let time = local_time_ms + node.sync.offset_ms;
    if time < 0 {
        0
    } else if time > 0xffff_ffff_ffff_ffff {
        0xffff_ffff_ffff_ffff
    } else {
        time as u64
    }
}

/// The number of the slot that a time lies in, of which 8 bits count.
pub open spec fn slot_number(schedule: TdmaSchedule, time_ms: u64) -> int {
    time_ms as int % schedule.superframe_ms as int / schedule.slot_ms as int % 256
}

/// How long a time lies behind the start of its slot.
pub open spec fn time_in_slot(schedule: TdmaSchedule, time_ms: u64) -> int {
    time_ms as int % schedule.superframe_ms as int % schedule.slot_ms as int
}

/// The slot that a core finds itself in when its timer fires.
pub open spec fn slot_now(core: CoreState, local_time_ms: u64) -> int {
    slot_number(core.node.schedule, time_read(core.node, local_time_ms))
}

/// A node takes part in the schedule: it is the gateway, or it has a parent and
/// has heard a SYNC.
pub open spec fn takes_part(node: NodeState) -> bool {
    node.role == NodeRole::Gateway || (node.phase == NetworkPhase::Joined
        && node.sync.last_sync_seq != 0)
}

/// It is a node's turn when its timer fires: the active window of a slot is open,
/// and that slot is not the one that the node acted in last.
pub open spec fn has_turn(core: CoreState, local_time_ms: u64) -> bool {
    let schedule = core.node.schedule;
    let elapsed = time_in_slot(schedule, time_read(core.node, local_time_ms));
    &&& takes_part(core.node)
    &&& schedule.guard_before_ms <= elapsed < schedule.guard_before_ms + schedule.active_ms
    &&& core.last_tx_slot matches Some(used) ==> used != slot_now(core, local_time_ms)
}

/// A core as it is while it runs: valid, and with a schedule that has slots.
pub open spec fn runs(core: CoreState) -> bool {
    core.is_valid() && core.node.schedule.superframe_ms > 0 && core.node.schedule.slot_ms > 0
}

/// A frame that the node itself sent at a local time.
pub open spec fn is_sent_by(
    frame: FrameView,
    node: NodeState,
    local_time_ms: u64,
    dst_id: u8,
    frame_type: FrameType,
    seq: u16,
) -> bool {
    &&& frame.net_id == 0x4331
    &&& frame.src_id == id_of(node.role)
    &&& frame.dst_id == dst_id
    &&& frame.node_role == node.role
    &&& frame.zone_id == 1
    &&& frame.frame_type == frame_type
    &&& frame.seq == seq
    &&& frame.hop == node.hop
    &&& frame.gateway_time_ms == time_read(node, local_time_ms)
}

/// What a core is after it acted in a slot and sent `count` frames that are
/// numbered with the others.
pub open spec fn acted(core: CoreState, slot: u8, count: int) -> CoreState {
    CoreState {
        node: NodeState { seq: ((core.node.seq + count) % 0x1_0000) as u16, ..core.node },
        last_tx_slot: Some(slot),
        ..core
    }
}

/// Slots and windows, as the core reckons with them, are those of plain division.
proof fn lemma_turn(core: CoreState, local_time_ms: u64)
    requires
        runs(core),
    ensures
        ({
            let now_ms = core.node.gateway_time_ms(local_time_ms);
            &&& now_ms == time_read(core.node, local_time_ms)
            &&& core.node.schedule.slot_at(now_ms) == slot_now(core, local_time_ms)
            &&& core.follows_schedule() == takes_part(core.node)
            &&& takes_part(core.node) ==> (core.due_slot(local_time_ms) is Some) == has_turn(
                core,
                local_time_ms,
            )
            &&& core.due_slot(local_time_ms) matches Some(slot) ==> slot == slot_now(
                core,
                local_time_ms,
            )
        }),
{
    let schedule = core.node.schedule;
    let now_ms = core.node.gateway_time_ms(local_time_ms) as int;
    let frame = schedule.superframe_ms as int;
    vstd::arithmetic::div_mod::lemma_mod_bound(now_ms, frame);
    vstd::arithmetic::div_mod::lemma_mod_bound(now_ms % frame, schedule.slot_ms as int);
}

/// A node that looks for a parent sends one HELLO when its last one is at least
/// two seconds old, to all, and nothing before. It goes on so until it has joined,
/// whatever its role.
pub proof fn law_searching_node_repeats_hello(core: CoreState, local_time_ms: u64)
    requires
        core.is_valid(),
        core.node.role != NodeRole::Gateway,
        core.node.phase == NetworkPhase::Searching,
    ensures
        ({
            let step = core.timer_step(local_time_ms);
            if local_time_ms - core.last_hello_ms >= 2_000 {
                &&& step.sends.len() == 1
                &&& is_sent_by(
                    step.sends[0],
                    core.node,
                    local_time_ms,
                    0xff,
                    FrameType::Hello,
                    next(core.node.seq),
                )
                &&& step.sends[0].payload == seq![
                    match core.node.parent_id {
                        Some(id) => id,
                        None => 0,
                    },
                    core.node.slot_id,
                ]
                &&& step.report == TimerReport::HelloRetried
                &&& step.state == CoreState {
                    node: NodeState { seq: next(core.node.seq), ..core.node },
                    last_hello_ms: local_time_ms,
                    ..core
                }
            } else {
                &&& step.sends.len() == 0
                &&& step.report == TimerReport::Idle
                &&& step.state == core
            }
        }),
{
}

/// A node that has joined waits in silence for its first SYNC.
pub proof fn law_joined_node_awaits_sync(core: CoreState, local_time_ms: u64)
    requires
        core.node.role != NodeRole::Gateway,
        core.node.phase == NetworkPhase::Joined,
        core.node.sync.last_sync_seq == 0,
    ensures
        core.timer_step(local_time_ms).sends.len() == 0,
        core.timer_step(local_time_ms).report == TimerReport::Idle,
        core.timer_step(local_time_ms).state == core,
{
}

/// A node that takes part in the schedule does nothing when it is not its turn.
pub proof fn law_nothing_out_of_turn(core: CoreState, local_time_ms: u64)
    requires
        runs(core),
        takes_part(core.node),
        !has_turn(core, local_time_ms),
    ensures
        core.timer_step(local_time_ms).sends.len() == 0,
        core.timer_step(local_time_ms).report == TimerReport::Idle,
        core.timer_step(local_time_ms).state == core,
{
    lemma_turn(core, local_time_ms);
}

/// Each time it is the gateway's turn in slot 0, alarm or no alarm, it sends one
/// SYNC to all. It carries the gateway's own time, the next sync sequence number
/// and the gateway's schedule, and it is counted. Only whether the buzzer is
/// silenced depends on the alarm.
pub proof fn law_gateway_broadcasts_in_slot_0(core: CoreState, local_time_ms: u64)
    requires
        runs(core),
        core.node.role == NodeRole::Gateway,
        has_turn(core, local_time_ms),
        slot_now(core, local_time_ms) == 0,
    ensures
        ({
            let step = core.timer_step(local_time_ms);
            let schedule = core.node.schedule;
            let sync_seq = next(core.node.sync_seq);
            &&& step.sends.len() == 1
            &&& is_sent_by(
                step.sends[0],
                core.node,
                local_time_ms,
                0xff,
                FrameType::Sync,
                next(core.node.seq),
            )
            &&& step.sends[0].gateway_time_ms == local_time_ms
            &&& payload::read_sync(step.sends[0].payload) == Some(
                (
                    sync_seq,
                    schedule.schedule_version,
                    schedule.superframe_ms,
                    schedule.slot_ms,
                    schedule.guard_before_ms,
                    schedule.active_ms,
                ),
            )
            &&& step.report matches TimerReport::SyncBroadcast {
                sync_seq: reported_seq,
                slot,
                status,
                silence_buzzer,
            }
            &&& reported_seq == sync_seq
            &&& slot == 0
            &&& status == core.liveness.status(local_time_ms, schedule)
            &&& silence_buzzer == !core.gateway_alarm_active
            &&& step.state == CoreState {
                node: NodeState { seq: next(core.node.seq), sync_seq, ..core.node },
                stats: GatewayStats {
                    tx_sync: if core.stats.tx_sync == u32::MAX {
                        u32::MAX
                    } else {
                        (core.stats.tx_sync + 1) as u32
                    },
                    last_tx_sync_seq: sync_seq,
                    ..core.stats
                },
                last_tx_slot: Some(0),
                ..core
            }
        }),
{
    lemma_turn(core, local_time_ms);
    payload::law_sync_payload_read_back(
        next(core.node.sync_seq),
        core.node.schedule.schedule_version,
        core.node.schedule.superframe_ms,
        core.node.schedule.slot_ms,
        core.node.schedule.guard_before_ms,
        core.node.schedule.active_ms,
    );
}

/// Relay and sensor alike keep at an ALARM that is not acknowledged: when it is
/// their turn in slot 4 and the last send is at least two seconds ago, the very
/// frame goes out once more, as long as it was sent fewer than three times; after
/// the third time it is given up.
pub proof fn law_alarm_is_repeated_in_slot_4(core: CoreState, local_time_ms: u64)
    requires
        runs(core),
        core.node.role != NodeRole::Gateway,
        has_turn(core, local_time_ms),
        slot_now(core, local_time_ms) == 4,
    ensures
        ({
            let step = core.timer_step(local_time_ms);
            let overdue = local_time_ms - core.pending.last_sent_ms >= 2_000;
            let used = CoreState { last_tx_slot: Some(4), ..core };
            match core.pending.frame {
                Some(alarm) if overdue && core.pending.attempts < 3 => {
                    &&& step.sends == seq![alarm]
                    &&& step.report == TimerReport::AlarmRetried {
                        attempt: (core.pending.attempts + 1) as u8,
                    }
                    &&& step.state == CoreState {
                        pending: PendingView {
                            frame: Some(alarm),
                            attempts: (core.pending.attempts + 1) as u8,
                            last_sent_ms: local_time_ms,
                        },
                        ..used
                    }
                },
                Some(alarm) if overdue => {
                    &&& step.sends.len() == 0
                    &&& step.report == TimerReport::AlarmDropped {
                        seq: alarm.seq,
                        frame_type: FrameType::Alarm,
                    }
                    &&& step.state == CoreState {
                        pending: PendingView { frame: None, ..core.pending },
                        ..used
                    }
                },
                _ => {
                    &&& step.sends.len() == 0
                    &&& step.report == TimerReport::Idle
                    &&& step.state == used
                },
            }
        }),
{
    lemma_turn(core, local_time_ms);
}

/// When it is the relay's turn in slot 1, a SYNC that waits goes out to all with
/// its type and payload as they came and with the time that the relay reads, and
/// none waits any more.
pub proof fn law_relay_passes_on_sync_in_slot_1(core: CoreState, local_time_ms: u64)
    requires
        runs(core),
        core.node.role == NodeRole::Relay,
        has_turn(core, local_time_ms),
        slot_now(core, local_time_ms) == 1,
    ensures
        ({
            let step = core.timer_step(local_time_ms);
            match core.sync_forward {
                Some(received) => {
                    &&& step.sends.len() == 1
                    &&& is_sent_by(
                        step.sends[0],
                        core.node,
                        local_time_ms,
                        0xff,
                        received.frame_type,
                        next(core.node.seq),
                    )
                    &&& step.sends[0].payload == received.payload
                    &&& step.report == TimerReport::SyncForwarded
                    &&& step.state == CoreState { sync_forward: None, ..acted(core, 1, 1) }
                },
                None => {
                    &&& step.sends.len() == 0
                    &&& step.report == TimerReport::Idle
                    &&& step.state == CoreState { last_tx_slot: Some(1), ..core }
                },
            }
        }),
{
    lemma_turn(core, local_time_ms);
}

/// When it is the sensor's turn in slot 2, alarm or no alarm, it sends one frame to
/// its parent: an ALARM while its alarm is on, and otherwise a DATA. The frame
/// says the sensor's identifier, the next origin sequence number, and temperature
/// and humidity of the latest sample. An ALARM then waits for its ACK.
pub proof fn law_sensor_sends_latest_sample_in_slot_2(core: CoreState, local_time_ms: u64)
    requires
        runs(core),
        core.node.role == NodeRole::Sensor,
        has_turn(core, local_time_ms),
        slot_now(core, local_time_ms) == 2,
    ensures
        ({
            let step = core.timer_step(local_time_ms);
            let sample = core.latest_sample;
            &&& step.sends.len() == 1
            &&& is_sent_by(
                step.sends[0],
                core.node,
                local_time_ms,
                match core.node.parent_id {
                    Some(id) => id,
                    None => 0xff,
                },
                if core.sensor_alarm_active {
                    FrameType::Alarm
                } else {
                    FrameType::Data
                },
                next(core.node.seq),
            )
            &&& payload::read_data(step.sends[0].payload) == Some(
                (
                    3u8,
                    next(core.node.data_seq),
                    sample.temp_centi_c,
                    sample.humidity_centi_percent,
                ),
            )
            &&& step.report == TimerReport::ReadingSent { sample }
            &&& step.state == CoreState {
                node: NodeState {
                    seq: next(core.node.seq),
                    data_seq: next(core.node.data_seq),
                    ..core.node
                },
                pending: if core.sensor_alarm_active {
                    PendingView {
                        frame: Some(step.sends[0]),
                        attempts: 1,
                        last_sent_ms: local_time_ms,
                    }
                } else {
                    core.pending
                },
                last_tx_slot: Some(2),
                ..core
            }
        }),
{
    lemma_turn(core, local_time_ms);
    payload::law_data_payload_read_back(
        3,
        next(core.node.data_seq),
        core.latest_sample.temp_centi_c,
        core.latest_sample.humidity_centi_percent,
    );
}

/// How many frames of the relay's buffer go out in one slot: two at most.
pub open spec fn portion(buffered: Seq<FrameView>) -> int {
    if buffered.len() < 2 {
        buffered.len() as int
    } else {
        2
    }
}

/// The `i`-th frame that the relay passes on in its slot: an ALARM that waits
/// comes first, and then the buffered DATA, the oldest first.
pub open spec fn passed_on(core: CoreState, i: int) -> FrameView {
    match core.alarm_forward {
        Some(alarm) => if i == 0 {
            alarm
        } else {
            core.buffered[i - 1]
        },
        None => core.buffered[i],
    }
}

/// Passing on frames one after the other: they keep type and payload, are
/// numbered one after the other, and the last ALARM among them is the frame that
/// waits for its ACK.
proof fn lemma_passing_on(
    node: NodeState,
    pending: PendingView,
    received: Seq<FrameView>,
    local_time_ms: u64,
)
    ensures
        ({
            let (after, waiting, sends) = core_state::forwarding(
                node,
                pending,
                received,
                local_time_ms,
            );
            &&& after == NodeState {
                seq: ((node.seq + received.len()) % 0x1_0000) as u16,
                ..node
            }
            &&& sends.len() == received.len()
            &&& forall|i: int|
                #![trigger sends[i]]
                0 <= i < sends.len() ==> is_sent_by(
                    sends[i],
                    node,
                    local_time_ms,
                    1,
                    received[i].frame_type,
                    ((node.seq + i + 1) % 0x1_0000) as u16,
                ) && sends[i].payload == received[i].payload
            &&& (forall|i: int|
                0 <= i < received.len() ==> (#[trigger] received[i]).frame_type
                    != FrameType::Alarm) ==> waiting == pending
            &&& (received.len() > 0 && received[0].frame_type == FrameType::Alarm && (forall|
                i: int,
            |
                0 < i < received.len() ==> (#[trigger] received[i]).frame_type
                    != FrameType::Alarm)) ==> waiting == PendingView {
                frame: Some(sends[0]),
                attempts: 1,
                last_sent_ms: local_time_ms,
            }
        }),
    decreases received.len(),
{
    if received.len() > 0 {
        let earlier = received.drop_last();
        lemma_passing_on(node, pending, earlier, local_time_ms);
        if earlier.len() > 0 {
            assert(earlier[0] == received[0]);
        }
    }
}

/// When it is the relay's turn in slot 3, it passes on to the gateway an ALARM that
/// waits, and then at most two of the buffered DATA, the oldest first. Each goes
/// out with its type and payload as they came. The ALARM then waits for its ACK,
/// and what was passed on waits no more.
pub proof fn law_relay_passes_on_readings_in_slot_3(core: CoreState, local_time_ms: u64)
    requires
        runs(core),
        core.node.role == NodeRole::Relay,
        has_turn(core, local_time_ms),
        slot_now(core, local_time_ms) == 3,
    ensures
        ({
            let step = core.timer_step(local_time_ms);
            let count = portion(core.buffered) + (if core.alarm_forward is Some {
                1int
            } else {
                0int
            });
            &&& step.sends.len() == count
            &&& forall|i: int|
                #![trigger step.sends[i]]
                0 <= i < count ==> is_sent_by(
                    step.sends[i],
                    core.node,
                    local_time_ms,
                    1,
                    passed_on(core, i).frame_type,
                    ((core.node.seq + i + 1) % 0x1_0000) as u16,
                ) && step.sends[i].payload == passed_on(core, i).payload
            &&& step.report == TimerReport::ReadingsForwarded
            &&& step.state == CoreState {
                buffered: core.buffered.subrange(
                    portion(core.buffered),
                    core.buffered.len() as int,
                ),
                alarm_forward: None,
                pending: if core.alarm_forward is Some {
                    PendingView {
                        frame: Some(step.sends[0]),
                        attempts: 1,
                        last_sent_ms: local_time_ms,
                    }
                } else {
                    core.pending
                },
                ..acted(core, 3, count)
            }
        }),
{
    lemma_turn(core, local_time_ms);
    let due = core.due_readings();
    lemma_passing_on(core.node, core.pending, due, local_time_ms);
    let alarms = core_state::one_or_none(core.alarm_forward);
    assert(due.len() == alarms.len() + portion(core.buffered));
    assert forall|i: int| 0 <= i < due.len() implies #[trigger] due[i] == passed_on(core, i) by {
        if i >= alarms.len() {
            assert(due[i] == core.buffered[i - alarms.len()]);
        }
    }
    assert forall|i: int| alarms.len() <= i < due.len() implies (#[trigger] due[i]).frame_type
        != FrameType::Alarm by {
        assert(CoreState::is_reading(core.buffered[i - alarms.len()], FrameType::Data));
    }
}

/// When it is the relay's turn in slot 5, and the sensor's in slot 6, it sends one
/// HEARTBEAT to its parent, numbered apart from other frames. It says the sender's
/// slot, hop and last sync sequence number, and who is there: the sensor says so
/// of itself, and the relay of itself and of a sensor that it saw no longer ago
/// than a superframe and an active window.
pub proof fn law_heartbeats_are_sent_in_slots_5_and_6(core: CoreState, local_time_ms: u64)
    requires
        runs(core),
        has_turn(core, local_time_ms),
        core.node.role == NodeRole::Relay && slot_now(core, local_time_ms) == 5
            || core.node.role == NodeRole::Sensor && slot_now(core, local_time_ms) == 6,
    ensures
        ({
            let step = core.timer_step(local_time_ms);
            let schedule = core.node.schedule;
            let slot: u8 = if core.node.role == NodeRole::Relay {
                5
            } else {
                6
            };
            let sensor_there = core.sensor_last_seen matches Some(seen_ms) && time_read(
                core.node,
                local_time_ms,
            ) - seen_ms <= schedule.superframe_ms + schedule.active_ms;
            let presence: u8 = if core.node.role == NodeRole::Sensor {
                8
            } else if sensor_there {
                12
            } else {
                4
            };
            &&& step.sends.len() == 1
            &&& is_sent_by(
                step.sends[0],
                core.node,
                local_time_ms,
                match core.node.parent_id {
                    Some(id) => id,
                    None => 0xff,
                },
                FrameType::Heartbeat,
                next(core.node.heartbeat_seq),
            )
            &&& payload::read_heartbeat(step.sends[0].payload) == Some(
                (core.node.slot_id, core.node.hop, core.node.sync.last_sync_seq, presence),
            )
            &&& step.report == TimerReport::HeartbeatSent {
                heartbeat_slot: slot,
                presence_mask: presence,
            }
            &&& step.state == CoreState {
                node: NodeState { heartbeat_seq: next(core.node.heartbeat_seq), ..core.node },
                last_tx_slot: Some(slot),
                ..core
            }
        }),
{
    lemma_turn(core, local_time_ms);
    protocol::law_presence_bits(0, NodeRole::Sensor, NodeRole::Relay);
    assert(4u8 | 8u8 == 12u8) by (bit_vector);
    let step = core.timer_step(local_time_ms);
    payload::law_heartbeat_payload_read_back(
        core.node.slot_id,
        core.node.hop,
        core.node.sync.last_sync_seq,
        step.report->HeartbeatSent_presence_mask,
    );
}

/// Where a node has nothing to do in a slot, its turn passes in silence: for the
/// gateway in every slot but 0, for the relay in 0, 2, 6 and 7, for the sensor in
/// 0, 1, 3, 5 and 7, and for all beyond.
pub proof fn law_turns_in_other_slots_are_silent(core: CoreState, local_time_ms: u64)
    requires
        runs(core),
        has_turn(core, local_time_ms),
        ({
            let slot = slot_now(core, local_time_ms);
            match core.node.role {
                NodeRole::Gateway => slot != 0,
                NodeRole::Relay => slot == 0 || slot == 2 || slot >= 6,
                NodeRole::Sensor => slot == 0 || slot == 1 || slot == 3 || slot == 5 || slot >= 7,
            }
        }),
    ensures
        core.timer_step(local_time_ms).sends.len() == 0,
        core.timer_step(local_time_ms).report == TimerReport::Idle,
        core.timer_step(local_time_ms).state == (CoreState {
            last_tx_slot: Some(slot_now(core, local_time_ms) as u8),
            ..core
        }),
{
    lemma_turn(core, local_time_ms);
}

/// How long a node waits before its timer fires. One that takes part in the
/// schedule waits until the window opens while in the guard before it, not at all
/// when it is its turn, and otherwise until the slot is over. One that looks for a
/// parent waits until its last HELLO is two seconds old. Any other waits two
/// seconds.
pub proof fn law_waits_for_its_turn(core: CoreState, local_time_ms: u64)
    requires
        runs(core),
        core.last_hello_ms <= u64::MAX - 2_000,
    ensures
        ({
            let schedule = core.node.schedule;
            let elapsed = time_in_slot(schedule, time_read(core.node, local_time_ms));
            let used = core.last_tx_slot matches Some(slot) && slot == slot_now(
                core,
                local_time_ms,
            );
            let wait = core.wait_ms(local_time_ms);
            if takes_part(core.node) {
                if has_turn(core, local_time_ms) {
                    wait == 0
                } else if !used && elapsed < schedule.guard_before_ms {
                    elapsed + wait == schedule.guard_before_ms
                } else {
                    elapsed + wait == schedule.slot_ms
                }
            } else if core.node.phase == NetworkPhase::Searching {
                if local_time_ms - core.last_hello_ms >= 2_000 {
                    wait == 0
                } else {
                    local_time_ms + wait == core.last_hello_ms + 2_000
                }
            } else {
                wait == 2_000
            }
        }),
{
    lemma_turn(core, local_time_ms);
    let schedule = core.node.schedule;
    let now_ms = core.node.gateway_time_ms(local_time_ms) as int;
    vstd::arithmetic::div_mod::lemma_mod_bound(
        now_ms % schedule.superframe_ms as int,
        schedule.slot_ms as int,
    );
}

/// How a core begins: with its role's place in the line from the gateway to the
/// sensor, an unset clock, the demo schedule, a normal sample, and nothing that
/// waits, was counted or was seen.
pub proof fn law_core_begins_at_its_place(role: NodeRole, local_time_ms: u64)
    ensures
        ({
            let core = CoreState::initial(role, local_time_ms);
            let hop: u8 = (id_of(role) - 1) as u8;
            &&& core.node == NodeState {
                role,
                parent_id: if role == NodeRole::Gateway {
                    None
                } else {
                    Some((id_of(role) - 1) as u8)
                },
                hop,
                slot_id: match role {
                    NodeRole::Gateway => 0,
                    NodeRole::Relay => 3,
                    NodeRole::Sensor => 2,
                },
                seq: 0,
                data_seq: 0,
                heartbeat_seq: 0,
                sync_seq: 0,
                phase: NetworkPhase::Searching,
                sync: TimeSync {
                    last_sync_seq: 0,
                    offset_ms: 0,
                    last_measured_offset_ms: 0,
                    offset_delta_ms: 0,
                    hop,
                },
                schedule: TdmaSchedule {
                    schedule_version: 1,
                    superframe_ms: 8_000,
                    slot_ms: 1_000,
                    guard_before_ms: 100,
                    active_ms: 700,
                    slot_count: 8,
                    sync_slot: 0,
                    relay_control_slot: 1,
                    sensor_slot: 2,
                    relay_slot: 3,
                    alarm_retry_slot: 4,
                    relay_heartbeat_slot: 5,
                    sensor_heartbeat_slot: 6,
                    quiet_slot: 7,
                },
                last_data: None,
                last_heartbeat: None,
            }
            &&& !core.gateway_alarm_active
            &&& !core.sensor_alarm_active
            &&& core.latest_sample == EnvironmentSample {
                temp_centi_c: 2_480,
                humidity_centi_percent: 6_250,
            }
            &&& core.pending.frame is None
            &&& core.buffered.len() == 0
            &&& core.sync_forward is None
            &&& core.alarm_forward is None
            &&& core.stats == GatewayStats {
                rx_data: 0,
                rx_alarm: 0,
                tx_ack: 0,
                slot_violations: 0,
                origin_seq_gap_total: 0,
                last_origin_seq: None,
                tx_sync: 0,
                last_tx_sync_seq: 0,
            }
            &&& core.sensor_last_seen is None
            &&& core.liveness == GatewayHeartbeatView {
                relay_last_seen: None,
                sensor_last_seen: None,
                reported_relay: GatewayNodeLiveness::Offline,
                reported_sensor: GatewayNodeLiveness::Offline,
            }
            &&& core.last_hello_ms == local_time_ms
            &&& core.last_tx_slot is None
            &&& core.statistics_period == local_time_ms / 30_000
        }),
{
}

/// On start the gateway counts as joined at once, and any other node numbers and
/// sends its first HELLO, to all; nothing else changes.
pub proof fn law_start_announces_the_node(core: CoreState, local_time_ms: u64)
    ensures
        core.node.role == NodeRole::Gateway ==> core.started() == (CoreState {
            node: NodeState { phase: NetworkPhase::Joined, ..core.node },
            ..core
        }),
        core.node.role != NodeRole::Gateway ==> core.started() == (CoreState {
            node: NodeState { seq: next(core.node.seq), ..core.node },
            ..core
        }),
        is_sent_by(
            core.node.hello(local_time_ms),
            core.node,
            local_time_ms,
            0xff,
            FrameType::Hello,
            next(core.node.seq),
        ),
{
}

/// The gateway prints its statistics once in each half minute, and no other node
/// does.
pub proof fn law_statistics_every_half_minute(core: CoreState, local_time_ms: u64)
    ensures
        core.statistics_due(local_time_ms) == (core.node.role == NodeRole::Gateway && local_time_ms
            / 30_000 > core.statistics_period),
        core.after_statistics(local_time_ms) == (if core.statistics_due(local_time_ms) {
            CoreState { statistics_period: local_time_ms / 30_000, ..core }
        } else {
            core
        }),
{
}

/// A fresh sample replaces the latest one, and nothing else changes with it.
pub proof fn law_fresh_sample_replaces_the_latest(core: CoreState, sample: EnvironmentSample)
    ensures
        core.with_sample(Some(sample)) == (CoreState { latest_sample: sample, ..core }),
        core.with_sample(None) == core,
{
}

/// When its alarm is raised, the sensor sends ALARM from then on; when it is
/// cleared, DATA, and no ALARM waits any more. Nothing else changes, nor does
/// anything where the alarm stays as it is.
pub proof fn law_alarm_follows_its_transitions(core: CoreState)
    requires
        core.is_valid(),
    ensures
        core.after_transition(AlarmTransition::Raised) == (CoreState {
            sensor_alarm_active: true,
            ..core
        }),
        core.after_transition(AlarmTransition::Cleared) == (CoreState {
            sensor_alarm_active: false,
            pending: PendingView { frame: None, ..core.pending },
            ..core
        }),
        core.after_transition(AlarmTransition::Unchanged) == core,
{
}

/// How long to wait before acting in a slot, in plain numbers: until the slot is over
/// where it was used already or its window has passed, until the window opens while
/// in the guard before it, and not at all in the window.
pub proof fn law_wait_for_a_window(
    schedule: TdmaSchedule,
    gateway_time_ms: u64,
    slot: u8,
    last_tx_slot: Option<u8>,
)
    requires
        schedule.superframe_ms > 0,
        schedule.slot_ms > 0,
        schedule.guard_before_ms + schedule.active_ms <= u32::MAX,
    ensures
        ({
            let elapsed = time_in_slot(schedule, gateway_time_ms);
            let wait = core_state::window_delay_ms(schedule, gateway_time_ms, slot, last_tx_slot);
            let used = last_tx_slot matches Some(last) && last == slot;
            let window_end = schedule.guard_before_ms + schedule.active_ms;
            &&& used || elapsed >= window_end && elapsed >= schedule.guard_before_ms ==> elapsed
                + wait == schedule.slot_ms
            &&& !used && elapsed < schedule.guard_before_ms ==> elapsed + wait
                == schedule.guard_before_ms
            &&& !used && schedule.guard_before_ms <= elapsed < window_end ==> wait == 0
        }),
{
    let since = gateway_time_ms as int % schedule.superframe_ms as int;
    vstd::arithmetic::div_mod::lemma_mod_bound(
        gateway_time_ms as int,
        schedule.superframe_ms as int,
    );
    vstd::arithmetic::div_mod::lemma_mod_bound(since, schedule.slot_ms as int);
}

/// A DATA goes out twice, as nobody acknowledges it, and every other frame once.
pub proof fn law_only_data_goes_out_twice(frame_type: FrameType)
    ensures
        node_core::tx_repeats(frame_type) == (if frame_type == FrameType::Data {
            2u8
        } else {
            1u8
        }),
{
}

} // verus!
