//! What nodes guarantee to each other.

use vstd::prelude::*;

use crate::demo::{FrameAction, NetworkPhase, NodeState};
use crate::protocol::{FrameType, FrameView};
use crate::role::{NodeRole, BROADCAST_ID, GATEWAY_ID, NET_ID};
use crate::{bytes, demo, payload, protocol, tdma_laws};

verus! {

/// A node is valid from the start, and stays so whatever it sends and receives.
pub proof fn law_node_stays_valid(
    role: NodeRole,
    node: NodeState,
    frame: FrameView,
    local_time_ms: u64,
)
    requires
        node.is_valid(),
    ensures
        NodeState::initial(role).is_valid(),
        node.after_control().is_valid(),
        node.after_sync().is_valid(),
        node.after_reading().is_valid(),
        node.after_heartbeat().is_valid(),
        node.after_frame(frame, local_time_ms).is_valid(),
        node.after_frame(frame, local_time_ms).role == node.role,
{
    payload::lemma_sync_windows_are_short(frame.payload);
}

/// The gateway is the time authority: its view of the network's time is always
/// its own clock, and no frame changes that.
pub proof fn law_gateway_keeps_its_own_time(
    node: NodeState,
    frame: FrameView,
    frame_time_ms: u64,
    local_time_ms: u64,
)
    requires
        node.is_valid(),
        node.role == NodeRole::Gateway,
    ensures
        node.is_synced(),
        node.gateway_time_ms(local_time_ms) == local_time_ms,
        node.after_frame(frame, frame_time_ms).gateway_time_ms(local_time_ms) == local_time_ms,
        node.after_frame(frame, frame_time_ms).schedule == node.schedule,
        node.after_frame(frame, frame_time_ms).sync_seq == node.sync_seq,
{
}

/// A node other than the gateway is synced exactly from the first SYNC on: as
/// long as it hears none it is not, and a SYNC with a number other than zero
/// makes it so.
pub proof fn law_synced_from_first_sync(
    role: NodeRole,
    node: NodeState,
    frame: FrameView,
    local_time_ms: u64,
)
    requires
        node.role != NodeRole::Gateway,
        role != NodeRole::Gateway,
    ensures
        !NodeState::initial(role).is_synced(),
        node.reaction(frame, local_time_ms) matches FrameAction::Synced { sync_seq, .. }
            ==> node.after_frame(frame, local_time_ms).is_synced() == (sync_seq != 0)
            && node.after_frame(frame, local_time_ms).sync_seq == sync_seq,
        !(node.reaction(frame, local_time_ms) is Synced) ==> node.after_frame(
            frame,
            local_time_ms,
        ).is_synced() == node.is_synced(),
{
}

/// Frames of another network, and frames to another node, are ignored and leave
/// no trace.
pub proof fn law_frames_for_others_are_ignored(
    node: NodeState,
    frame: FrameView,
    local_time_ms: u64,
)
    requires
        frame.net_id != NET_ID || (frame.dst_id != node.role.node_id() && frame.dst_id
            != BROADCAST_ID),
    ensures
        node.reaction(frame, local_time_ms) == FrameAction::Ignore,
        node.after_frame(frame, local_time_ms) == node,
{
}

/// Repeats are transparent: a DATA, ALARM or HEARTBEAT that arrives a second time
/// is ignored and leaves no trace.
pub proof fn law_repeats_are_ignored(
    node: NodeState,
    frame: FrameView,
    first_ms: u64,
    second_ms: u64,
)
    requires
        frame.frame_type.is_periodic(),
    ensures
        node.after_frame(frame, first_ms).reaction(frame, second_ms) == FrameAction::Ignore,
        node.after_frame(frame, first_ms).after_frame(frame, second_ms) == node.after_frame(
            frame,
            first_ms,
        ),
{
}

/// The sequence spaces are independent: control frames, heartbeats and received
/// frames leave the origin sequence of readings alone, so that readings are
/// numbered one after the other; nothing but a SYNC touches the sync sequence;
/// and heartbeats are numbered on their own.
pub proof fn law_sequence_spaces_are_independent(
    node: NodeState,
    frame: FrameView,
    local_time_ms: u64,
)
    ensures
        node.after_control().data_seq == node.data_seq,
        node.after_heartbeat().data_seq == node.data_seq,
        node.after_sync().data_seq == node.data_seq,
        node.after_frame(frame, local_time_ms).data_seq == node.data_seq,
        node.after_reading().data_seq == demo::following(node.data_seq),
        node.after_control().sync_seq == node.sync_seq,
        node.after_heartbeat().sync_seq == node.sync_seq,
        node.after_reading().sync_seq == node.sync_seq,
        node.after_sync().sync_seq == demo::following(node.sync_seq),
        frame.frame_type != FrameType::Sync && frame.frame_type != FrameType::Schedule
            ==> node.after_frame(frame, local_time_ms).sync_seq == node.sync_seq,
        node.after_heartbeat().seq == node.seq,
        node.after_control().heartbeat_seq == node.heartbeat_seq,
        node.after_reading().heartbeat_seq == node.heartbeat_seq,
        node.after_frame(frame, local_time_ms).heartbeat_seq == node.heartbeat_seq,
{
}

/// A reading carries the origin's identifier, the next origin sequence number
/// and the measured values, however it is read.
pub proof fn law_reading_says_what_was_measured(
    node: NodeState,
    alarm: bool,
    local_time_ms: u64,
    temp_centi_c: i16,
    humidity_centi_percent: u16,
)
    ensures
        payload::read_data(
            node.reading(alarm, local_time_ms, temp_centi_c, humidity_centi_percent).payload,
        ) == Some(
            (
                node.role.node_id(),
                demo::following(node.data_seq),
                temp_centi_c,
                humidity_centi_percent,
            ),
        ),
{
    payload::law_data_payload_read_back(
        node.role.node_id(),
        demo::following(node.data_seq),
        temp_centi_c,
        humidity_centi_percent,
    );
}

/// A node that accepts a JOIN_ACK has the sender as its parent, is one hop
/// farther from the gateway than the sender, and has the slot of its role.
pub proof fn law_join_ack_places_child(
    parent: NodeState,
    child: NodeState,
    sent_ms: u64,
    received_ms: u64,
)
    ensures
        ({
            let frame = parent.join_ack(child.role.node_id(), child.role, sent_ms);
            let joined = child.after_frame(frame, received_ms);
            &&& child.reaction(frame, received_ms) == FrameAction::Joined {
                parent_id: parent.role.node_id(),
                hop: parent.child_hop(),
                slot_id: child.role.default_slot(),
            }
            &&& joined.phase == NetworkPhase::Joined
            &&& joined.parent_id == Some(parent.role.node_id())
            &&& joined.hop == parent.child_hop()
            &&& joined.slot_id == child.role.default_slot()
        }),
{
    payload::law_join_ack_payload_read_back(
        parent.role.node_id(),
        parent.child_hop(),
        child.role.default_slot(),
    );
}

/// With a SYNC a node takes over the sender's schedule and sync sequence number,
/// whether the SYNC comes from the gateway itself or through the relay.
pub proof fn law_sync_hands_down_schedule(
    gateway: NodeState,
    relay: NodeState,
    child: NodeState,
    sent_ms: u64,
    relayed_ms: u64,
    received_ms: u64,
)
    requires
        gateway.is_valid(),
        child.is_valid(),
        child.role != NodeRole::Gateway,
    ensures
        ({
            let direct = gateway.sync_frame(sent_ms);
            let relayed = relay.forwarded(direct, BROADCAST_ID, relayed_ms);
            let sync_seq = demo::following(gateway.sync_seq);
            &&& child.after_frame(direct, received_ms).schedule == gateway.schedule
            &&& child.after_frame(relayed, received_ms).schedule == gateway.schedule
            &&& child.after_frame(direct, received_ms).sync.last_sync_seq == sync_seq
            &&& child.after_frame(relayed, received_ms).sync.last_sync_seq == sync_seq
            &&& child.reaction(direct, received_ms) is Synced
            &&& child.reaction(relayed, received_ms) is Synced
        }),
{
    payload::law_sync_payload_read_back(
        demo::following(gateway.sync_seq),
        gateway.schedule.schedule_version,
        gateway.schedule.superframe_ms,
        gateway.schedule.slot_ms,
        gateway.schedule.guard_before_ms,
        gateway.schedule.active_ms,
    );
}

/// Time is handed down hop by hop: with its first SYNC, which came through the
/// relay, a node reads the very time that the relay read when it passed the SYNC
/// on.
pub proof fn law_first_sync_hands_down_time(
    gateway: NodeState,
    relay: NodeState,
    child: NodeState,
    sent_ms: u64,
    relayed_ms: u64,
    received_ms: u64,
)
    requires
        gateway.is_valid(),
        child.is_valid(),
        child.role != NodeRole::Gateway,
        child.sync.last_sync_seq == 0,
        tdma_laws::fits_i64(relay.gateway_time_ms(relayed_ms) - received_ms),
    ensures
        child.after_frame(
            relay.forwarded(gateway.sync_frame(sent_ms), BROADCAST_ID, relayed_ms),
            received_ms,
        ).gateway_time_ms(received_ms) == relay.gateway_time_ms(relayed_ms),
{
    law_sync_hands_down_schedule(gateway, relay, child, sent_ms, relayed_ms, received_ms);
    tdma_laws::law_first_sync_is_exact(
        child.sync,
        demo::following(gateway.sync_seq),
        relay.gateway_time_ms(relayed_ms),
        received_ms,
    );
}

/// A reading crosses two hops unchanged: the relay reads the sensor's values, and
/// the gateway reads the same values from what the relay passes on.
pub proof fn law_reading_crosses_two_hops(
    sensor: NodeState,
    relay: NodeState,
    gateway: NodeState,
    alarm: bool,
    temp_centi_c: i16,
    humidity_centi_percent: u16,
    sent_ms: u64,
    relay_ms: u64,
    forwarded_ms: u64,
    gateway_ms: u64,
)
    requires
        gateway.role == NodeRole::Gateway,
        sensor.uplink() == relay.role.node_id(),
        ({
            let frame = sensor.reading(alarm, sent_ms, temp_centi_c, humidity_centi_percent);
            !relay.is_repeat(frame) && !gateway.is_repeat(
                relay.forwarded(frame, GATEWAY_ID, forwarded_ms),
            )
        }),
    ensures
        ({
            let frame = sensor.reading(alarm, sent_ms, temp_centi_c, humidity_centi_percent);
            let measured = FrameAction::Data {
                origin_id: sensor.role.node_id(),
                origin_seq: demo::following(sensor.data_seq),
                temp_centi_c,
                humidity_centi_percent,
                alarm,
            };
            &&& relay.reaction(frame, relay_ms) == measured
            &&& gateway.reaction(
                relay.forwarded(frame, GATEWAY_ID, forwarded_ms),
                gateway_ms,
            ) == measured
        }),
{
    law_reading_says_what_was_measured(
        sensor,
        alarm,
        sent_ms,
        temp_centi_c,
        humidity_centi_percent,
    );
}

/// A heartbeat tells its receiver the sender's slot, hop, last sync sequence
/// number and presence mask.
pub proof fn law_heartbeat_is_understood(
    sender: NodeState,
    receiver: NodeState,
    presence_mask: u8,
    sent_ms: u64,
    received_ms: u64,
)
    requires
        sender.uplink() == receiver.role.node_id(),
        !receiver.is_repeat(sender.heartbeat(sent_ms, presence_mask)),
    ensures
        receiver.reaction(sender.heartbeat(sent_ms, presence_mask), received_ms)
            == (FrameAction::Heartbeat {
            slot_id: sender.slot_id,
            hop: sender.hop,
            sync_seq: sender.sync.last_sync_seq,
            presence_mask,
        }),
{
    payload::law_heartbeat_payload_read_back(
        sender.slot_id,
        sender.hop,
        sender.sync.last_sync_seq,
        presence_mask,
    );
}

/// An ACK tells its receiver which frame it is for.
pub proof fn law_ack_is_understood(
    sender: NodeState,
    receiver: NodeState,
    acked_seq: u16,
    acked_type: FrameType,
    sent_ms: u64,
    received_ms: u64,
)
    ensures
        receiver.reaction(
            sender.ack(receiver.role.node_id(), acked_seq, acked_type, sent_ms),
            received_ms,
        ) == (FrameAction::Ack { acked_seq, acked_type }),
{
    payload::law_ack_payload_read_back(acked_seq, acked_type);
}

/// Every frame that a node builds fits into a packet and is decoded as it was
/// built.
pub proof fn law_built_frames_survive_the_air(
    node: NodeState,
    dst_id: u8,
    child_role: NodeRole,
    alarm: bool,
    temp_centi_c: i16,
    humidity_centi_percent: u16,
    acked_seq: u16,
    acked_type: FrameType,
    presence_mask: u8,
    received: FrameView,
    local_time_ms: u64,
)
    requires
        received.fits(),
    ensures
        forall|frame: FrameView|
            #![trigger frame.wire()]
            frame == node.hello(local_time_ms) || frame == node.sync_frame(local_time_ms) || frame
                == node.join_ack(dst_id, child_role, local_time_ms) || frame == node.reading(
                alarm,
                local_time_ms,
                temp_centi_c,
                humidity_centi_percent,
            ) || frame == node.ack(dst_id, acked_seq, acked_type, local_time_ms) || frame
                == node.heartbeat(local_time_ms, presence_mask) || frame == node.forwarded(
                received,
                dst_id,
                local_time_ms,
            ) ==> protocol::parse(frame.wire()) == Ok::<FrameView, protocol::DecodeError>(frame),
{
    bytes::lemma_le_bytes_len(demo::following(node.sync_seq) as nat, 2);
    bytes::lemma_le_bytes_len(node.schedule.superframe_ms as nat, 4);
    bytes::lemma_le_bytes_len(node.schedule.slot_ms as nat, 4);
    bytes::lemma_le_bytes_len(node.schedule.guard_before_ms as nat, 2);
    bytes::lemma_le_bytes_len(node.schedule.active_ms as nat, 2);
    bytes::lemma_le_bytes_len(demo::following(node.data_seq) as nat, 2);
    bytes::lemma_le_bytes_len(payload::i16_bits(temp_centi_c), 2);
    bytes::lemma_le_bytes_len(humidity_centi_percent as nat, 2);
    bytes::lemma_le_bytes_len(acked_seq as nat, 2);
    bytes::lemma_le_bytes_len(node.sync.last_sync_seq as nat, 2);
    assert forall|frame: FrameView|
        #![trigger frame.wire()]
        frame == node.hello(local_time_ms) || frame == node.sync_frame(local_time_ms) || frame
            == node.join_ack(dst_id, child_role, local_time_ms) || frame == node.reading(
            alarm,
            local_time_ms,
            temp_centi_c,
            humidity_centi_percent,
        ) || frame == node.ack(dst_id, acked_seq, acked_type, local_time_ms) || frame
            == node.heartbeat(local_time_ms, presence_mask) || frame == node.forwarded(
            received,
            dst_id,
            local_time_ms,
        ) implies protocol::parse(frame.wire()) == Ok::<FrameView, protocol::DecodeError>(frame) by {
        protocol::law_decode_undoes_encode(frame);
    }
}

/// Without a synced clock a node takes note of every frame, and with one it still
/// takes note of every control frame.
pub proof fn law_slots_bind_periodic_frames_only(node: NodeState, frame: FrameView)
    requires
        !node.is_synced() || !frame.frame_type.is_periodic(),
    ensures
        node.accepts_slot_of(frame),
{
}

/// With a synced clock a node takes note of a DATA only in the sender's data
/// slot, of an ALARM there and in the alarm retry slot, of a HEARTBEAT only in
/// the sender's heartbeat slot, and of none of these from a gateway.
pub proof fn law_slots_bind_periodic_frames(node: NodeState, frame: FrameView)
    requires
        node.is_valid(),
        node.is_synced(),
        frame.frame_type.is_periodic(),
    ensures
        node.accepts_slot_of(frame) == {
            let slot = node.schedule.slot_at(frame.gateway_time_ms);
            match frame.node_role {
                NodeRole::Gateway => false,
                NodeRole::Relay => if frame.frame_type == FrameType::Heartbeat {
                    slot == 5
                } else {
                    slot == 3 || (frame.frame_type == FrameType::Alarm && slot == 4)
                },
                NodeRole::Sensor => if frame.frame_type == FrameType::Heartbeat {
                    slot == 6
                } else {
                    slot == 2 || (frame.frame_type == FrameType::Alarm && slot == 4)
                },
            }
        },
{
}

} // verus!
