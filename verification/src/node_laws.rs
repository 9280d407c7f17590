//! What the frames of a node say and what a node makes of frames, for every role
//! and every state, byte by byte.

use vstd::prelude::*;

use crate::demo::{FrameAction, NetworkPhase, NodeState};
use crate::protocol::{FrameType, FrameView};
use crate::role::NodeRole;
use crate::tdma::TimeSync;
use crate::{bytes, frame_laws, payload, timer_laws};

verus! {

/// The low byte of a number.
pub open spec fn low(x: int) -> u8 {
    (x % 256) as u8
}

/// The second byte of a number.
pub open spec fn high(x: int) -> u8 {
    (x / 256 % 256) as u8
}

/// The slot in which a node of a role sends its readings.
pub open spec fn data_slot(role: NodeRole) -> u8 {
    match role {
        NodeRole::Gateway => 0,
        NodeRole::Relay => 3,
        NodeRole::Sensor => 2,
    }
}

/// Where a node sends what goes toward the gateway: to its parent, and to all while
/// it has none.
pub open spec fn toward_gateway(node: NodeState) -> u8 {
    match node.parent_id {
        Some(id) => id,
        None => 0xff,
    }
}

proof fn lemma_two_bytes(x: nat)
    ensures
        bytes::le_bytes(x, 2) == seq![low(x as int), high(x as int)],
{
    reveal_with_fuel(bytes::le_bytes, 3);
    assert(bytes::le_bytes(x, 2) =~= seq![low(x as int), high(x as int)]);
}

proof fn lemma_four_bytes(x: nat)
    ensures
        bytes::le_bytes(x, 4) == seq![
            low(x as int),
            high(x as int),
            low(x as int / 0x1_0000),
            high(x as int / 0x1_0000),
        ],
{
    reveal_with_fuel(bytes::le_bytes, 5);
    assert(bytes::le_bytes(x, 4) =~= seq![
        low(x as int),
        high(x as int),
        low(x as int / 0x1_0000),
        high(x as int / 0x1_0000),
    ]);
}

/// A HELLO goes to all and says the node's parent, or 0 where it has none, and the
/// node's slot.
pub proof fn law_hello_says(node: NodeState, local_time_ms: u64)
    ensures
        timer_laws::is_sent_by(
            node.hello(local_time_ms),
            node,
            local_time_ms,
            0xff,
            FrameType::Hello,
            timer_laws::next(node.seq),
        ),
        node.hello(local_time_ms).payload == seq![
            match node.parent_id {
                Some(id) => id,
                None => 0,
            },
            node.slot_id,
        ],
        node.after_control() == (NodeState { seq: timer_laws::next(node.seq), ..node }),
{
}

/// A SYNC goes to all and says the next sync sequence number and the node's
/// schedule, the low byte of each number first.
pub proof fn law_sync_says(node: NodeState, local_time_ms: u64)
    ensures
        timer_laws::is_sent_by(
            node.sync_frame(local_time_ms),
            node,
            local_time_ms,
            0xff,
            FrameType::Sync,
            timer_laws::next(node.seq),
        ),
        node.sync_frame(local_time_ms).payload == ({
            let sync_seq = timer_laws::next(node.sync_seq) as int;
            let superframe = node.schedule.superframe_ms as int;
            let slot = node.schedule.slot_ms as int;
            let guard = node.schedule.guard_before_ms as int;
            let active = node.schedule.active_ms as int;
            seq![
                low(sync_seq),
                high(sync_seq),
                node.schedule.schedule_version,
                low(superframe),
                high(superframe),
                low(superframe / 0x1_0000),
                high(superframe / 0x1_0000),
                low(slot),
                high(slot),
                low(slot / 0x1_0000),
                high(slot / 0x1_0000),
                low(guard),
                high(guard),
                low(active),
                high(active),
            ]
        }),
        node.after_sync() == (NodeState {
            seq: timer_laws::next(node.seq),
            sync_seq: timer_laws::next(node.sync_seq),
            ..node
        }),
{
    lemma_two_bytes(timer_laws::next(node.sync_seq) as nat);
    lemma_four_bytes(node.schedule.superframe_ms as nat);
    lemma_four_bytes(node.schedule.slot_ms as nat);
    lemma_two_bytes(node.schedule.guard_before_ms as nat);
    lemma_two_bytes(node.schedule.active_ms as nat);
}

/// A JOIN_ACK goes to the child and says the node as its parent, one hop more than
/// the node's own, and the slot of the child's role.
pub proof fn law_join_ack_says(
    node: NodeState,
    dst_id: u8,
    child_role: NodeRole,
    local_time_ms: u64,
)
    ensures
        timer_laws::is_sent_by(
            node.join_ack(dst_id, child_role, local_time_ms),
            node,
            local_time_ms,
            dst_id,
            FrameType::JoinAck,
            timer_laws::next(node.seq),
        ),
        node.join_ack(dst_id, child_role, local_time_ms).payload == seq![
            timer_laws::id_of(node.role),
            if node.hop == 0xff {
                0xff
            } else {
                (node.hop + 1) as u8
            },
            data_slot(child_role),
        ],
{
}

/// A DATA or ALARM goes toward the gateway and says the node's identifier, the next
/// origin sequence number, and temperature and humidity in hundredths, the low
/// byte of each number first and a negative temperature in two's complement.
pub proof fn law_reading_says(
    node: NodeState,
    alarm: bool,
    local_time_ms: u64,
    temp_centi_c: i16,
    humidity_centi_percent: u16,
)
    ensures
        ({
            let frame = node.reading(alarm, local_time_ms, temp_centi_c, humidity_centi_percent);
            let origin_seq = timer_laws::next(node.data_seq) as int;
            let temp = if temp_centi_c < 0 {
                temp_centi_c + 0x1_0000
            } else {
                temp_centi_c as int
            };
            &&& timer_laws::is_sent_by(
                frame,
                node,
                local_time_ms,
                toward_gateway(node),
                if alarm {
                    FrameType::Alarm
                } else {
                    FrameType::Data
                },
                timer_laws::next(node.seq),
            )
            &&& frame.payload == seq![
                timer_laws::id_of(node.role),
                low(origin_seq),
                high(origin_seq),
                low(temp),
                high(temp),
                low(humidity_centi_percent as int),
                high(humidity_centi_percent as int),
            ]
        }),
        node.after_reading() == (NodeState {
            seq: timer_laws::next(node.seq),
            data_seq: timer_laws::next(node.data_seq),
            ..node
        }),
{
    lemma_two_bytes(timer_laws::next(node.data_seq) as nat);
    lemma_two_bytes(payload::i16_bits(temp_centi_c));
    lemma_two_bytes(humidity_centi_percent as nat);
}

/// An ACK says sequence number and type of the frame that it is for.
pub proof fn law_ack_says(
    node: NodeState,
    dst_id: u8,
    acked_seq: u16,
    acked_type: FrameType,
    local_time_ms: u64,
)
    ensures
        ({
            let frame = node.ack(dst_id, acked_seq, acked_type, local_time_ms);
            let type_number: u8 = match acked_type {
                FrameType::Hello => 1,
                FrameType::JoinAck => 2,
                FrameType::Sync => 3,
                FrameType::Schedule => 4,
                FrameType::Data => 5,
                FrameType::Alarm => 6,
                FrameType::Ack => 7,
                FrameType::Heartbeat => 8,
            };
            &&& timer_laws::is_sent_by(
                frame,
                node,
                local_time_ms,
                dst_id,
                FrameType::Ack,
                timer_laws::next(node.seq),
            )
            &&& frame.payload == seq![low(acked_seq as int), high(acked_seq as int), type_number]
        }),
{
    lemma_two_bytes(acked_seq as nat);
}

/// A HEARTBEAT goes toward the gateway, has a number of its own, and says the
/// node's slot, hop and last sync sequence number, and who is there.
pub proof fn law_heartbeat_says(node: NodeState, local_time_ms: u64, presence_mask: u8)
    ensures
        ({
            let frame = node.heartbeat(local_time_ms, presence_mask);
            let sync_seq = node.sync.last_sync_seq as int;
            &&& timer_laws::is_sent_by(
                frame,
                node,
                local_time_ms,
                toward_gateway(node),
                FrameType::Heartbeat,
                timer_laws::next(node.heartbeat_seq),
            )
            &&& frame.payload == seq![
                node.slot_id,
                node.hop,
                low(sync_seq),
                high(sync_seq),
                presence_mask,
            ]
        }),
        node.after_heartbeat() == (NodeState {
            heartbeat_seq: timer_laws::next(node.heartbeat_seq),
            ..node
        }),
{
    lemma_two_bytes(node.sync.last_sync_seq as nat);
}

/// What is passed on keeps its type and payload, and is otherwise a frame of the
/// node that passes it on.
pub proof fn law_forwarded_frame_says(
    node: NodeState,
    received: FrameView,
    dst_id: u8,
    local_time_ms: u64,
)
    ensures
        timer_laws::is_sent_by(
            node.forwarded(received, dst_id, local_time_ms),
            node,
            local_time_ms,
            dst_id,
            received.frame_type,
            timer_laws::next(node.seq),
        ),
        node.forwarded(received, dst_id, local_time_ms).payload == received.payload,
{
}

/// A node that is not the gateway knows the time from its first SYNC on, and the
/// gateway always does. The time that a node reads is its own clock and its offset.
pub proof fn law_node_reads_the_time(node: NodeState, local_time_ms: u64)
    ensures
        node.is_synced() == (node.role == NodeRole::Gateway || node.sync.last_sync_seq != 0),
        node.gateway_time_ms(local_time_ms) == timer_laws::time_read(node, local_time_ms),
{
}

/// What a JOIN_ACK that is for a node says is what becomes of the node; one that is
/// too short is ignored.
pub proof fn law_node_joins(node: NodeState, frame: FrameView, local_time_ms: u64)
    requires
        frame_laws::is_for(node, frame),
        frame.frame_type == FrameType::JoinAck,
    ensures
        ({
            let said = frame.payload;
            let action = node.reaction(frame, local_time_ms);
            let after = node.after_frame(frame, local_time_ms);
            if said.len() < 3 {
                action == FrameAction::Ignore && after == node
            } else {
                &&& action == FrameAction::Joined {
                    parent_id: said[0],
                    hop: said[1],
                    slot_id: said[2],
                }
                &&& after == NodeState {
                    parent_id: Some(said[0]),
                    hop: said[1],
                    slot_id: said[2],
                    phase: NetworkPhase::Joined,
                    sync: TimeSync { hop: said[1], ..node.sync },
                    ..node
                }
            }
        }),
{
}

/// Every DATA and ALARM that is for a node is remembered by its sender and number,
/// and one that was not remembered yet is handed on with what it says, as an alarm
/// exactly if it is an ALARM. One that is too short is ignored.
pub proof fn law_node_hears_readings(node: NodeState, frame: FrameView, local_time_ms: u64)
    requires
        frame_laws::is_for(node, frame),
        frame.frame_type == FrameType::Data || frame.frame_type == FrameType::Alarm,
    ensures
        ({
            let said = frame.payload;
            let heard = node.last_data == Some((frame.src_id, frame.seq));
            &&& node.after_frame(frame, local_time_ms) == NodeState {
                last_data: Some((frame.src_id, frame.seq)),
                ..node
            }
            &&& node.reaction(frame, local_time_ms) == if heard || said.len() < 7 {
                FrameAction::Ignore
            } else {
                FrameAction::Data {
                    origin_id: said[0],
                    origin_seq: frame_laws::le16(said, 1) as u16,
                    temp_centi_c: frame_laws::signed16(said, 3) as i16,
                    humidity_centi_percent: frame_laws::le16(said, 5) as u16,
                    alarm: frame.frame_type == FrameType::Alarm,
                }
            }
        }),
{
    frame_laws::law_payloads_are_read_byte_by_byte(frame.payload);
}

/// Every HEARTBEAT that is for a node is remembered by its sender and number, apart
/// from readings, and one that was not remembered yet is handed on with what it
/// says. One that is too short is ignored.
pub proof fn law_node_hears_heartbeats(node: NodeState, frame: FrameView, local_time_ms: u64)
    requires
        frame_laws::is_for(node, frame),
        frame.frame_type == FrameType::Heartbeat,
    ensures
        ({
            let said = frame.payload;
            let heard = node.last_heartbeat == Some((frame.src_id, frame.seq));
            &&& node.after_frame(frame, local_time_ms) == NodeState {
                last_heartbeat: Some((frame.src_id, frame.seq)),
                ..node
            }
            &&& node.reaction(frame, local_time_ms) == if heard || said.len() < 4 {
                FrameAction::Ignore
            } else {
                FrameAction::Heartbeat {
                    slot_id: said[0],
                    hop: said[1],
                    sync_seq: frame_laws::le16(said, 2) as u16,
                    presence_mask: if said.len() >= 5 {
                        said[4]
                    } else {
                        0
                    },
                }
            }
        }),
{
    frame_laws::law_payloads_are_read_byte_by_byte(frame.payload);
}

/// An ACK that is for a node is handed on with what it says and leaves no trace;
/// one that is too short, or names no frame type, is ignored. So is every HELLO.
pub proof fn law_node_hears_ack_and_hello(node: NodeState, frame: FrameView, local_time_ms: u64)
    requires
        frame_laws::is_for(node, frame),
        frame.frame_type == FrameType::Ack || frame.frame_type == FrameType::Hello,
    ensures
        ({
            let said = frame.payload;
            let action = node.reaction(frame, local_time_ms);
            &&& node.after_frame(frame, local_time_ms) == node
            &&& if frame.frame_type == FrameType::Hello || said.len() < 3 || said[2] < 1 || said[2]
                > 8 {
                action == FrameAction::Ignore
            } else {
                action == FrameAction::Ack {
                    acked_seq: frame_laws::le16(said, 0) as u16,
                    acked_type: payload::read_ack(said)->Some_0.1,
                }
            }
        }),
{
    frame_laws::law_payloads_are_read_byte_by_byte(frame.payload);
}

/// What is of another network, or meant for another node, leaves no trace.
pub proof fn law_node_hears_only_its_own(node: NodeState, frame: FrameView, local_time_ms: u64)
    requires
        !frame_laws::is_for(node, frame),
    ensures
        node.reaction(frame, local_time_ms) == FrameAction::Ignore,
        node.after_frame(frame, local_time_ms) == node,
{
}

} // verus!
