//! Protocol state machine of a node, independent of any hardware.
//!
//! A node builds outbound frames, applies inbound frames, and keeps its join
//! state, its sequence counters and its clock.

use vstd::prelude::*;

pub use crate::alarm::{AlarmLatch, AlarmTransition, EnvironmentSample};
pub use crate::liveness::{
    heartbeat_timeout_ms, GatewayHeartbeatState, GatewayJoinStatus, GatewayNodeLiveness,
    RelayHeartbeatState,
};

use crate::buffers::{payload_clone, payload_slice};
use crate::error::{AppError, AppResult};
use crate::protocol::{
    ack_payload, data_payload, decode_ack_payload, decode_data_payload, decode_heartbeat_payload,
    decode_join_ack_payload, decode_sync_payload, heartbeat_payload, heartbeat_presence_for_role,
    hello_payload, join_ack_payload, sync_payload, EncodedFrame, Frame, FrameType, FrameView,
    Payload,
};
use crate::role::{NodeRole, BROADCAST_ID, DEMO_ZONE_ID, NET_ID};
use crate::tdma::{TdmaSchedule, TimeSync};
use crate::{buffers, payload, protocol};

verus! {

/// Join state of a node.
#[derive(Debug, Clone, Copy, PartialEq, Eq, Structural)]
pub enum NetworkPhase {
    /// The node looks for a parent and may send HELLO outside the schedule.
    Searching,
    /// The node has accepted a JOIN_ACK and takes part in scheduled traffic once
    /// its clock is synced.
    Joined,
}

/// What became of a received frame.
#[derive(Debug, Clone, Copy, PartialEq, Eq, Structural)]
pub enum FrameAction {
    /// The frame was irrelevant, malformed, a duplicate, or asks for nothing.
    Ignore,
    /// A JOIN_ACK was accepted.
    Joined { parent_id: u8, hop: u8, slot_id: u8 },
    /// A SYNC or SCHEDULE was accepted and the clock was updated.
    Synced { sync_seq: u16, offset_ms: i64 },
    /// A DATA or ALARM was accepted.
    Data {
        origin_id: u8,
        origin_seq: u16,
        temp_centi_c: i16,
        humidity_centi_percent: u16,
        alarm: bool,
    },
    /// An ACK was accepted.
    Ack { acked_seq: u16, acked_type: FrameType },
    /// A HEARTBEAT was accepted.
    Heartbeat { slot_id: u8, hop: u8, sync_seq: u16, presence_mask: u8 },
}

/// Protocol state of one node.
#[derive(Debug)]
pub struct DemoNode {
    role: NodeRole,
    parent_id: Option<u8>,
    hop: u8,
    slot_id: u8,
    seq: u16,
    data_seq: u16,
    heartbeat_seq: u16,
    sync_seq: u16,
    phase: NetworkPhase,
    sync: TimeSync,
    schedule: TdmaSchedule,
    last_data_seq: Option<(u8, u16)>,
    last_heartbeat_seq: Option<(u8, u16)>,
}

/// What a `DemoNode` holds: its place in the network, the sequence number last
/// used in each sequence space, its clock and schedule, and sender and sequence
/// number of the last DATA or ALARM and of the last HEARTBEAT that it heard.
pub struct NodeState {
    pub role: NodeRole,
    pub parent_id: Option<u8>,
    pub hop: u8,
    pub slot_id: u8,
    pub seq: u16,
    pub data_seq: u16,
    pub heartbeat_seq: u16,
    pub sync_seq: u16,
    pub phase: NetworkPhase,
    pub sync: TimeSync,
    pub schedule: TdmaSchedule,
    pub last_data: Option<(u8, u16)>,
    pub last_heartbeat: Option<(u8, u16)>,
}

/// The sequence number that follows `seq`.
pub open spec fn following(seq: u16) -> u16 {
    if seq == u16::MAX {
        0
    } else {
        (seq + 1) as u16
    }
}

/// The schedule `schedule` with the parameters that a SYNC carries.
pub open spec fn rescheduled(
    schedule: TdmaSchedule,
    schedule_version: u8,
    superframe_ms: u32,
    slot_ms: u32,
    guard_before_ms: u32,
    active_ms: u32,
) -> TdmaSchedule {
    TdmaSchedule {
        schedule_version,
        superframe_ms,
        slot_ms,
        guard_before_ms,
        active_ms,
        ..schedule
    }
}

impl NodeState {
    /// A node of this role that has heard and sent nothing.
    pub open spec fn initial(role: NodeRole) -> NodeState {
        NodeState {
            role,
            parent_id: role.parent_id(),
            hop: role.default_hop(),
            slot_id: role.default_slot(),
            seq: 0,
            data_seq: 0,
            heartbeat_seq: 0,
            sync_seq: 0,
            phase: NetworkPhase::Searching,
            sync: TimeSync::new(role.default_hop()),
            schedule: TdmaSchedule::demo(),
            last_data: None,
            last_heartbeat: None,
        }
    }

    /// What holds of every node: its slots are those of the demo schedule, its
    /// windows are short enough to be sent in a SYNC, and a gateway has never
    /// taken over another clock or schedule.
    pub open spec fn is_valid(self) -> bool {
        &&& self.schedule == rescheduled(
            TdmaSchedule::demo(),
            self.schedule.schedule_version,
            self.schedule.superframe_ms,
            self.schedule.slot_ms,
            self.schedule.guard_before_ms,
            self.schedule.active_ms,
        )
        &&& self.schedule.guard_before_ms <= 0xffff
        &&& self.schedule.active_ms <= 0xffff
        &&& self.role == NodeRole::Gateway ==> self.schedule == TdmaSchedule::demo()
            && self.sync == TimeSync::new(self.sync.hop)
    }

    /// The node's clock can be trusted: it is the gateway's own, or a SYNC was
    /// applied.
    pub open spec fn is_synced(self) -> bool {
        self.role == NodeRole::Gateway || self.sync.last_sync_seq != 0
    }

    /// The gateway's time, as the node sees it.
    pub open spec fn gateway_time_ms(self, local_time_ms: u64) -> u64 {
        self.sync.gateway_time_ms(local_time_ms)
    }

    /// Where the node sends what goes toward the gateway.
    pub open spec fn uplink(self) -> u8 {
        match self.parent_id {
            Some(id) => id,
            None => BROADCAST_ID,
        }
    }

    /// Whether the node takes note of a frame, as far as the slot goes that its
    /// sender claims to have sent it in.
    pub open spec fn accepts_slot_of(self, frame: FrameView) -> bool {
        self.is_synced() && frame.frame_type.is_periodic() ==> self.schedule.slot_owner_ok(
            frame.node_role,
            frame.frame_type,
            self.schedule.slot_at(frame.gateway_time_ms),
        )
    }

    /// The state after a control frame was built.
    pub open spec fn after_control(self) -> NodeState {
        NodeState { seq: following(self.seq), ..self }
    }

    /// The state after a SYNC was built.
    pub open spec fn after_sync(self) -> NodeState {
        NodeState { seq: following(self.seq), sync_seq: following(self.sync_seq), ..self }
    }

    /// The state after a DATA or ALARM was built.
    pub open spec fn after_reading(self) -> NodeState {
        NodeState { seq: following(self.seq), data_seq: following(self.data_seq), ..self }
    }

    /// The state after a HEARTBEAT was built.
    pub open spec fn after_heartbeat(self) -> NodeState {
        NodeState { heartbeat_seq: following(self.heartbeat_seq), ..self }
    }

    /// A frame from this node.
    pub open spec fn outgoing(
        self,
        dst_id: u8,
        frame_type: FrameType,
        seq: u16,
        local_time_ms: u64,
        payload: Seq<u8>,
    ) -> FrameView {
        FrameView {
            net_id: NET_ID,
            src_id: self.role.node_id(),
            dst_id,
            node_role: self.role,
            zone_id: DEMO_ZONE_ID,
            frame_type,
            seq,
            hop: self.hop,
            gateway_time_ms: self.gateway_time_ms(local_time_ms),
            payload,
        }
    }

    /// The HELLO that the node sends next.
    pub open spec fn hello(self, local_time_ms: u64) -> FrameView {
        self.outgoing(
            BROADCAST_ID,
            FrameType::Hello,
            following(self.seq),
            local_time_ms,
            payload::hello_bytes(self.parent_id, self.slot_id),
        )
    }

    /// The SYNC that the node sends next.
    pub open spec fn sync_frame(self, local_time_ms: u64) -> FrameView {
        self.outgoing(
            BROADCAST_ID,
            FrameType::Sync,
            following(self.seq),
            local_time_ms,
            payload::sync_bytes(
                following(self.sync_seq),
                self.schedule.schedule_version,
                self.schedule.superframe_ms,
                self.schedule.slot_ms,
                self.schedule.guard_before_ms,
                self.schedule.active_ms,
            ),
        )
    }

    /// The hop count of a node below this one.
    pub open spec fn child_hop(self) -> u8 {
        if self.hop == u8::MAX {
            u8::MAX
        } else {
            (self.hop + 1) as u8
        }
    }

    /// The JOIN_ACK that the node sends next, to a node of role `child_role`.
    pub open spec fn join_ack(
        self,
        dst_id: u8,
        child_role: NodeRole,
        local_time_ms: u64,
    ) -> FrameView {
        self.outgoing(
            dst_id,
            FrameType::JoinAck,
            following(self.seq),
            local_time_ms,
            payload::join_ack_bytes(
                self.role.node_id(),
                self.child_hop(),
                child_role.default_slot(),
            ),
        )
    }

    /// The DATA, or the ALARM, that the node sends next.
    pub open spec fn reading(
        self,
        alarm: bool,
        local_time_ms: u64,
        temp_centi_c: i16,
        humidity_centi_percent: u16,
    ) -> FrameView {
        self.outgoing(
            self.uplink(),
            if alarm {
                FrameType::Alarm
            } else {
                FrameType::Data
            },
            following(self.seq),
            local_time_ms,
            payload::data_bytes(
                self.role.node_id(),
                following(self.data_seq),
                temp_centi_c,
                humidity_centi_percent,
            ),
        )
    }

    /// The ACK that the node sends next.
    pub open spec fn ack(
        self,
        dst_id: u8,
        acked_seq: u16,
        acked_type: FrameType,
        local_time_ms: u64,
    ) -> FrameView {
        self.outgoing(
            dst_id,
            FrameType::Ack,
            following(self.seq),
            local_time_ms,
            payload::ack_bytes(acked_seq, acked_type),
        )
    }

    /// The HEARTBEAT that the node sends next.
    pub open spec fn heartbeat(self, local_time_ms: u64, presence_mask: u8) -> FrameView {
        self.outgoing(
            self.uplink(),
            FrameType::Heartbeat,
            following(self.heartbeat_seq),
            local_time_ms,
            payload::heartbeat_bytes(
                self.slot_id,
                self.hop,
                self.sync.last_sync_seq,
                presence_mask,
            ),
        )
    }

    /// The frame with which the node passes on `received` next: type and payload
    /// stay as they are.
    pub open spec fn forwarded(
        self,
        received: FrameView,
        dst_id: u8,
        local_time_ms: u64,
    ) -> FrameView {
        self.outgoing(
            dst_id,
            received.frame_type,
            following(self.seq),
            local_time_ms,
            received.payload,
        )
    }

    /// A frame of this network that is meant for this node or for all.
    pub open spec fn is_addressed_by(self, frame: FrameView) -> bool {
        frame.net_id == NET_ID && (frame.dst_id == self.role.node_id() || frame.dst_id
            == BROADCAST_ID)
    }

    /// Sender and sequence number of a frame are those of the last one of its
    /// kind.
    pub open spec fn is_repeat(self, frame: FrameView) -> bool {
        match frame.frame_type {
            FrameType::Data | FrameType::Alarm => self.last_data == Some(
                (frame.src_id, frame.seq),
            ),
            FrameType::Heartbeat => self.last_heartbeat == Some((frame.src_id, frame.seq)),
            _ => false,
        }
    }

    /// The node's clock after a SYNC that says `sync_seq`.
    pub open spec fn clock_after(
        self,
        sync_seq: u16,
        frame: FrameView,
        local_time_ms: u64,
    ) -> TimeSync {
        self.sync.synced(sync_seq, frame.gateway_time_ms, local_time_ms)
    }

    /// What becomes of a frame.
    pub open spec fn reaction(self, frame: FrameView, local_time_ms: u64) -> FrameAction {
        if !self.is_addressed_by(frame) || self.is_repeat(frame) {
            FrameAction::Ignore
        } else {
            match frame.frame_type {
                FrameType::Hello => FrameAction::Ignore,
                FrameType::JoinAck => match payload::read_join_ack(frame.payload) {
                    Some((parent_id, hop, slot_id)) => FrameAction::Joined {
                        parent_id,
                        hop,
                        slot_id,
                    },
                    None => FrameAction::Ignore,
                },
                FrameType::Sync | FrameType::Schedule => match payload::read_sync(frame.payload) {
                    Some((sync_seq, _, _, _, _, _)) if self.role != NodeRole::Gateway =>
                        FrameAction::Synced {
                        sync_seq,
                        offset_ms: self.clock_after(sync_seq, frame, local_time_ms).offset_ms,
                    },
                    _ => FrameAction::Ignore,
                },
                FrameType::Data | FrameType::Alarm => match payload::read_data(frame.payload) {
                    Some(
                        (origin_id, origin_seq, temp_centi_c, humidity_centi_percent),
                    ) => FrameAction::Data {
                        origin_id,
                        origin_seq,
                        temp_centi_c,
                        humidity_centi_percent,
                        alarm: frame.frame_type == FrameType::Alarm,
                    },
                    None => FrameAction::Ignore,
                },
                FrameType::Ack => match payload::read_ack(frame.payload) {
                    Some((acked_seq, acked_type)) => FrameAction::Ack { acked_seq, acked_type },
                    None => FrameAction::Ignore,
                },
                FrameType::Heartbeat => match payload::read_heartbeat(frame.payload) {
                    Some((slot_id, hop, sync_seq, presence_mask)) => FrameAction::Heartbeat {
                        slot_id,
                        hop,
                        sync_seq,
                        presence_mask,
                    },
                    None => FrameAction::Ignore,
                },
            }
        }
    }

    /// The state after a frame.
    pub open spec fn after_frame(self, frame: FrameView, local_time_ms: u64) -> NodeState {
        if !self.is_addressed_by(frame) {
            self
        } else {
            match frame.frame_type {
                FrameType::Hello | FrameType::Ack => self,
                FrameType::JoinAck => match payload::read_join_ack(frame.payload) {
                    Some((parent_id, hop, slot_id)) => NodeState {
                        parent_id: Some(parent_id),
                        hop,
                        slot_id,
                        sync: TimeSync { hop, ..self.sync },
                        phase: NetworkPhase::Joined,
                        ..self
                    },
                    None => self,
                },
                FrameType::Sync | FrameType::Schedule => match payload::read_sync(frame.payload) {
                    Some(
                        (
                            sync_seq,
                            schedule_version,
                            superframe_ms,
                            slot_ms,
                            guard_before_ms,
                            active_ms,
                        ),
                    ) if self.role != NodeRole::Gateway => NodeState {
                        schedule: rescheduled(
                            self.schedule,
                            schedule_version,
                            superframe_ms,
                            slot_ms,
                            guard_before_ms,
                            active_ms,
                        ),
                        sync: self.clock_after(sync_seq, frame, local_time_ms),
                        sync_seq,
                        ..self
                    },
                    _ => self,
                },
                FrameType::Data | FrameType::Alarm => NodeState {
                    last_data: Some((frame.src_id, frame.seq)),
                    ..self
                },
                FrameType::Heartbeat => NodeState {
                    last_heartbeat: Some((frame.src_id, frame.seq)),
                    ..self
                },
            }
        }
    }
}

impl View for DemoNode {
    type V = NodeState;

    closed spec fn view(&self) -> NodeState {
        NodeState {
            role: self.role,
            parent_id: self.parent_id,
            hop: self.hop,
            slot_id: self.slot_id,
            seq: self.seq,
            data_seq: self.data_seq,
            heartbeat_seq: self.heartbeat_seq,
            sync_seq: self.sync_seq,
            phase: self.phase,
            sync: self.sync,
            schedule: self.schedule,
            last_data: self.last_data_seq,
            last_heartbeat: self.last_heartbeat_seq,
        }
    }
}

impl Clone for DemoNode {
    fn clone(&self) -> (copy: DemoNode)
        ensures
            copy@ == self@,
    {
        proof {
            use_type_invariant(self);
        }
        DemoNode {
            role: self.role,
            parent_id: self.parent_id,
            hop: self.hop,
            slot_id: self.slot_id,
            seq: self.seq,
            data_seq: self.data_seq,
            heartbeat_seq: self.heartbeat_seq,
            sync_seq: self.sync_seq,
            phase: self.phase,
            sync: self.sync,
            schedule: self.schedule,
            last_data_seq: self.last_data_seq,
            last_heartbeat_seq: self.last_heartbeat_seq,
        }
    }
}

/// Whether `last` is sender and sequence number of `frame`.
fn is_same_send(last: Option<(u8, u16)>, frame: &Frame) -> (same: bool)
    ensures
        same == (last == Some((frame.src_id, frame.seq))),
{
    match last {
        Some((src_id, seq)) => src_id == frame.src_id && seq == frame.seq,
        None => false,
    }
}

impl DemoNode {
    /// What holds of every node.
    #[verifier::type_invariant]
    pub open spec fn is_valid(self) -> bool {
        self@.is_valid()
    }

    /// A node of this role that has heard and sent nothing.
    pub fn new(role: NodeRole) -> (node: DemoNode)
        ensures
            node@ == NodeState::initial(role),
            node@.is_valid(),
    {
        DemoNode {
            role,
            parent_id: role.parent_id(),
            hop: role.default_hop(),
            slot_id: role.default_slot(),
            seq: 0,
            data_seq: 0,
            heartbeat_seq: 0,
            sync_seq: 0,
            phase: NetworkPhase::Searching,
            sync: TimeSync::new(role.default_hop()),
            schedule: TdmaSchedule::demo(),
            last_data_seq: None,
            last_heartbeat_seq: None,
        }
    }

    /// Role of the node.
    pub fn role(&self) -> (role: NodeRole)
        ensures
            role == self@.role,
    {
        self.role
    }

    /// Current parent.
    pub fn parent_id(&self) -> (parent: Option<u8>)
        ensures
            parent == self@.parent_id,
    {
        self.parent_id
    }

    /// Current route hop count.
    pub fn hop(&self) -> (hop: u8)
        ensures
            hop == self@.hop,
    {
        self.hop
    }

    /// TDMA data slot assigned to the node.
    pub fn slot_id(&self) -> (slot: u8)
        ensures
            slot == self@.slot_id,
    {
        self.slot_id
    }

    /// Current join phase.
    pub fn phase(&self) -> (phase: NetworkPhase)
        ensures
            phase == self@.phase,
    {
        self.phase
    }

    /// Last sync sequence number that the node sent or accepted.
    pub fn sync_seq(&self) -> (seq: u16)
        ensures
            seq == self@.sync_seq,
    {
        self.sync_seq
    }

    /// Current schedule.
    pub fn schedule(&self) -> (schedule: TdmaSchedule)
        ensures
            schedule == self@.schedule,
    {
        self.schedule
    }

    /// Current clock state.
    pub fn sync(&self) -> (sync: TimeSync)
        ensures
            sync == self@.sync,
    {
        self.sync
    }

    /// The gateway's time at a local time, as the node sees it.
    pub fn gateway_time_ms(&self, local_time_ms: u64) -> (time: u64)
        ensures
            time == self@.gateway_time_ms(local_time_ms),
    {
        self.sync.gateway_time_ms(local_time_ms)
    }

    /// Take the node as joined.
    pub fn mark_joined(&mut self)
        ensures
            final(self)@ == (NodeState { phase: NetworkPhase::Joined, ..old(self)@ }),
    {
        proof {
            use_type_invariant(&*self);
        }
        self.phase = NetworkPhase::Joined;
    }

    /// Whether the node can trust its clock. The gateway always can; any other
    /// node can once it has applied a SYNC.
    pub fn is_synced(&self) -> (synced: bool)
        ensures
            synced == self@.is_synced(),
    {
        self.role == NodeRole::Gateway || self.sync.last_sync_seq != 0
    }

    /// Whether the node takes note of a frame, as far as slots go: once its
    /// clock is synced, DATA, ALARM and HEARTBEAT count only if they were sent
    /// in a slot that their sender owns.
    pub fn accepts_frame_slot(&self, frame: &Frame) -> (accepted: bool)
        requires
            self@.is_synced() && frame.frame_type.is_periodic()
                ==> self@.schedule.divides_time(),
        ensures
            accepted == self@.accepts_slot_of(frame@),
    {
        if !self.is_synced() {
            return true;
        }
        match frame.frame_type {
            FrameType::Hello
            | FrameType::JoinAck
            | FrameType::Ack
            | FrameType::Sync
            | FrameType::Schedule => return true,
            FrameType::Data | FrameType::Alarm | FrameType::Heartbeat => {},
        }
        let claimed_slot: u8 = self.schedule.slot_at(frame.gateway_time_ms);
        self.schedule.slot_owner_ok(frame.node_role, frame.frame_type, claimed_slot)
    }

    /// Step the sequence number of frames other than HEARTBEAT.
    pub fn next_seq(&mut self) -> (seq: u16)
        ensures
            seq == following(old(self)@.seq),
            final(self)@ == (NodeState { seq, ..old(self)@ }),
    {
        proof {
            use_type_invariant(&*self);
        }
        self.seq = self.seq.wrapping_add(1);
        self.seq
    }

    /// Step the origin sequence number of DATA and ALARM.
    pub fn next_data_seq(&mut self) -> (seq: u16)
        ensures
            seq == following(old(self)@.data_seq),
            final(self)@ == (NodeState { data_seq: seq, ..old(self)@ }),
    {
        proof {
            use_type_invariant(&*self);
        }
        self.data_seq = self.data_seq.wrapping_add(1);
        self.data_seq
    }

    /// Step the sequence number of HEARTBEAT.
    pub fn next_heartbeat_seq(&mut self) -> (seq: u16)
        ensures
            seq == following(old(self)@.heartbeat_seq),
            final(self)@ == (NodeState { heartbeat_seq: seq, ..old(self)@ }),
    {
        proof {
            use_type_invariant(&*self);
        }
        self.heartbeat_seq = self.heartbeat_seq.wrapping_add(1);
        self.heartbeat_seq
    }

    /// A frame from this node.
    fn outgoing(
        &self,
        dst_id: u8,
        frame_type: FrameType,
        seq: u16,
        local_time_ms: u64,
        payload: Payload,
    ) -> (frame: Frame)
        ensures
            frame@ == self@.outgoing(
                dst_id,
                frame_type,
                seq,
                local_time_ms,
                buffers::payload_bytes(payload),
            ),
    {
        Frame {
            net_id: NET_ID,
            src_id: self.role.node_id(),
            dst_id,
            node_role: self.role,
            zone_id: DEMO_ZONE_ID,
            frame_type,
            seq,
            hop: self.hop,
            gateway_time_ms: self.sync.gateway_time_ms(local_time_ms),
            payload,
        }
    }

    /// Build a HELLO.
    pub fn make_hello(&mut self, local_time_ms: u64) -> (made: AppResult<Frame>)
        ensures
            made matches Ok(frame) && frame@ == old(self)@.hello(local_time_ms),
            final(self)@ == old(self)@.after_control(),
    {
        let seq: u16 = self.next_seq();
        let payload = hello_payload(self.parent_id, self.slot_id)?;
        Ok(self.outgoing(BROADCAST_ID, FrameType::Hello, seq, local_time_ms, payload))
    }

    /// Build a SYNC.
    pub fn make_sync(&mut self, local_time_ms: u64) -> (made: AppResult<Frame>)
        ensures
            made matches Ok(frame) && frame@ == old(self)@.sync_frame(local_time_ms),
            final(self)@ == old(self)@.after_sync(),
    {
        let seq: u16 = self.next_seq();
        proof {
            use_type_invariant(&*self);
        }
        self.sync_seq = self.sync_seq.wrapping_add(1);
        let payload = sync_payload(
            self.sync_seq,
            self.schedule.schedule_version,
            self.schedule.superframe_ms,
            self.schedule.slot_ms,
            self.schedule.guard_before_ms,
            self.schedule.active_ms,
        )?;
        Ok(self.outgoing(BROADCAST_ID, FrameType::Sync, seq, local_time_ms, payload))
    }

    /// Build a JOIN_ACK to a node of role `child_role`.
    pub fn make_join_ack(&mut self, dst_id: u8, child_role: NodeRole, local_time_ms: u64) -> (made:
        AppResult<Frame>)
        ensures
            made matches Ok(frame) && frame@ == old(self)@.join_ack(
                dst_id,
                child_role,
                local_time_ms,
            ),
            final(self)@ == old(self)@.after_control(),
    {
        let seq: u16 = self.next_seq();
        let child_hop: u8 = self.hop.saturating_add(1);
        let payload = join_ack_payload(self.role.node_id(), child_hop, child_role.default_slot())?;
        Ok(self.outgoing(dst_id, FrameType::JoinAck, seq, local_time_ms, payload))
    }

    /// Build a DATA.
    pub fn make_data(
        &mut self,
        local_time_ms: u64,
        temp_centi_c: i16,
        humidity_centi_percent: u16,
    ) -> (made: AppResult<Frame>)
        ensures
            made matches Ok(frame) && frame@ == old(self)@.reading(
                false,
                local_time_ms,
                temp_centi_c,
                humidity_centi_percent,
            ),
            final(self)@ == old(self)@.after_reading(),
    {
        let seq: u16 = self.next_seq();
        let origin_seq: u16 = self.next_data_seq();
        let payload = data_payload(
            self.role.node_id(),
            origin_seq,
            temp_centi_c,
            humidity_centi_percent,
        )?;
        let dst_id: u8 = self.parent_id.unwrap_or(BROADCAST_ID);
        Ok(self.outgoing(dst_id, FrameType::Data, seq, local_time_ms, payload))
    }

    /// Build an ALARM.
    pub fn make_alarm(
        &mut self,
        local_time_ms: u64,
        temp_centi_c: i16,
        humidity_centi_percent: u16,
    ) -> (made: AppResult<Frame>)
        ensures
            made matches Ok(frame) && frame@ == old(self)@.reading(
                true,
                local_time_ms,
                temp_centi_c,
                humidity_centi_percent,
            ),
            final(self)@ == old(self)@.after_reading(),
    {
        let seq: u16 = self.next_seq();
        let origin_seq: u16 = self.next_data_seq();
        let payload = data_payload(
            self.role.node_id(),
            origin_seq,
            temp_centi_c,
            humidity_centi_percent,
        )?;
        let dst_id: u8 = self.parent_id.unwrap_or(BROADCAST_ID);
        Ok(self.outgoing(dst_id, FrameType::Alarm, seq, local_time_ms, payload))
    }

    /// Build an ACK.
    pub fn make_ack(
        &mut self,
        dst_id: u8,
        acked_seq: u16,
        acked_type: FrameType,
        local_time_ms: u64,
    ) -> (made: AppResult<Frame>)
        ensures
            made matches Ok(frame) && frame@ == old(self)@.ack(
                dst_id,
                acked_seq,
                acked_type,
                local_time_ms,
            ),
            final(self)@ == old(self)@.after_control(),
    {
        let seq: u16 = self.next_seq();
        let payload = ack_payload(acked_seq, acked_type)?;
        Ok(self.outgoing(dst_id, FrameType::Ack, seq, local_time_ms, payload))
    }

    /// Build a HEARTBEAT in which the node alone is present.
    pub fn make_heartbeat(&mut self, local_time_ms: u64) -> (made: AppResult<Frame>)
        ensures
            made matches Ok(frame) && frame@ == old(self)@.heartbeat(
                local_time_ms,
                protocol::presence_bit(old(self)@.role),
            ),
            final(self)@ == old(self)@.after_heartbeat(),
    {
        self.make_heartbeat_with_presence(local_time_ms, heartbeat_presence_for_role(self.role))
    }

    /// Build a HEARTBEAT.
    pub fn make_heartbeat_with_presence(&mut self, local_time_ms: u64, presence_mask: u8) -> (made:
        AppResult<Frame>)
        ensures
            made matches Ok(frame) && frame@ == old(self)@.heartbeat(local_time_ms, presence_mask),
            final(self)@ == old(self)@.after_heartbeat(),
    {
        let seq: u16 = self.next_heartbeat_seq();
        let payload = heartbeat_payload(
            self.slot_id,
            self.hop,
            self.sync.last_sync_seq,
            presence_mask,
        )?;
        let dst_id: u8 = self.parent_id.unwrap_or(BROADCAST_ID);
        Ok(self.outgoing(dst_id, FrameType::Heartbeat, seq, local_time_ms, payload))
    }

    /// Build the frame that passes on `received`.
    pub fn make_forwarded(&mut self, received: &Frame, dst_id: u8, local_time_ms: u64) -> (made:
        AppResult<Frame>)
        ensures
            made matches Ok(frame) && frame@ == old(self)@.forwarded(
                received@,
                dst_id,
                local_time_ms,
            ),
            final(self)@ == old(self)@.after_control(),
    {
        let seq: u16 = self.next_seq();
        let payload = payload_clone(&received.payload);
        Ok(self.outgoing(dst_id, received.frame_type, seq, local_time_ms, payload))
    }

    /// Apply a received frame.
    pub fn apply_frame(&mut self, frame: &Frame, local_time_ms: u64) -> (action: FrameAction)
        ensures
            action == old(self)@.reaction(frame@, local_time_ms),
            final(self)@ == old(self)@.after_frame(frame@, local_time_ms),
    {
        proof {
            use_type_invariant(&*self);
        }
        if frame.net_id != NET_ID {
            return FrameAction::Ignore;
        }
        if frame.dst_id != self.role.node_id() && frame.dst_id != BROADCAST_ID {
            return FrameAction::Ignore;
        }
        let payload = payload_slice(&frame.payload);
        match frame.frame_type {
            FrameType::JoinAck => {
                if let Some((parent_id, hop, slot_id)) = decode_join_ack_payload(payload) {
                    self.parent_id = Some(parent_id);
                    self.hop = hop;
                    self.slot_id = slot_id;
                    self.sync = TimeSync { hop, ..self.sync };
                    self.mark_joined();
                    FrameAction::Joined { parent_id, hop, slot_id }
                } else {
                    FrameAction::Ignore
                }
            },
            FrameType::Sync | FrameType::Schedule => {
                if self.role == NodeRole::Gateway {
                    return FrameAction::Ignore;
                }
                if let Some(
                    (
                        sync_seq,
                        schedule_version,
                        superframe_ms,
                        slot_ms,
                        guard_before_ms,
                        active_ms,
                    ),
                ) = decode_sync_payload(payload) {
                    proof {
                        payload::lemma_sync_windows_are_short(payload@);
                    }
                    self.schedule = TdmaSchedule {
                        schedule_version,
                        superframe_ms,
                        slot_ms,
                        guard_before_ms,
                        active_ms,
                        ..self.schedule
                    };
                    let mut sync = self.sync;
                    sync.apply_sync(sync_seq, frame.gateway_time_ms, local_time_ms);
                    self.sync = sync;
                    self.sync_seq = sync_seq;
                    FrameAction::Synced { sync_seq, offset_ms: sync.offset_ms }
                } else {
                    FrameAction::Ignore
                }
            },
            FrameType::Data | FrameType::Alarm => {
                if is_same_send(self.last_data_seq, frame) {
                    return FrameAction::Ignore;
                }
                self.last_data_seq = Some((frame.src_id, frame.seq));
                if let Some((origin_id, origin_seq, temp_centi_c, humidity_centi_percent)) =
                    decode_data_payload(payload) {
                    FrameAction::Data {
                        origin_id,
                        origin_seq,
                        temp_centi_c,
                        humidity_centi_percent,
                        alarm: frame.frame_type == FrameType::Alarm,
                    }
                } else {
                    FrameAction::Ignore
                }
            },
            FrameType::Ack => {
                if let Some((acked_seq, acked_type)) = decode_ack_payload(payload) {
                    FrameAction::Ack { acked_seq, acked_type }
                } else {
                    FrameAction::Ignore
                }
            },
            FrameType::Heartbeat => {
                if is_same_send(self.last_heartbeat_seq, frame) {
                    return FrameAction::Ignore;
                }
                self.last_heartbeat_seq = Some((frame.src_id, frame.seq));
                if let Some((slot_id, hop, sync_seq, presence_mask)) =
                    decode_heartbeat_payload(payload) {
                    FrameAction::Heartbeat { slot_id, hop, sync_seq, presence_mask }
                } else {
                    FrameAction::Ignore
                }
            },
            FrameType::Hello => FrameAction::Ignore,
        }
    }

    /// Encode a frame for the radio. Every frame fits.
    pub fn encode_for_lora(frame: &Frame) -> (encoded: AppResult<EncodedFrame>)
        ensures
            encoded matches Ok(out) && buffers::encoded_bytes(out) == frame@.wire(),
    {
        match frame.encode() {
            Ok(out) => Ok(out),
            Err(error) => Err(AppError::from(error)),
        }
    }
}

} // verus!
