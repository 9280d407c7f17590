//! What the core task of a node does, as a state machine: how its state changes,
//! what it sends and what it reports when its timer fires and when a frame comes.

use vstd::prelude::*;

use crate::alarm::{AlarmTransition, EnvironmentSample};
use crate::demo::{FrameAction, NetworkPhase, NodeState};
use crate::demo_log::{BuzzerAction, GatewayRxDataLog, GatewayStats};
use crate::liveness::{GatewayHeartbeatView, GatewayJoinStatus};
use crate::pending::PendingView;
use crate::protocol::{FrameType, FrameView};
use crate::role::{NodeRole, BROADCAST_ID, GATEWAY_ID};
use crate::tdma::TdmaSchedule;
use crate::{demo, demo_log, liveness, payload, protocol, relay};

verus! {

/// Most buffered DATA frames that the relay passes on in one slot, so that they
/// stay inside the active window.
pub const MAX_FORWARD_PER_SLOT: usize = 2;

/// How often a DATA is sent, as nobody acknowledges it. Receivers tell repeats by
/// sender and sequence number.
pub const BEST_EFFORT_TX_REPEATS: u8 = 2;

/// Pause between two sends of the same DATA.
pub const BEST_EFFORT_REPEAT_GAP_MS: u64 = 40;

/// How often the gateway prints its statistics.
pub const STATISTICS_PERIOD_MS: u64 = 30_000;

/// How long a node without a synced clock waits for an answer to its HELLO.
pub const HELLO_RETRY_INTERVAL_MS: u64 = 2_000;

/// How long to wait before acting in `slot`: until the next slot where `slot`
/// was already used or its active window has passed, until the window opens
/// while in the leading guard, and not at all in the window.
pub open spec fn window_delay_ms(
    schedule: TdmaSchedule,
    gateway_time_ms: u64,
    slot: u8,
    last_tx_slot: Option<u8>,
) -> u64 {
    if last_tx_slot == Some(slot) {
        schedule.next_slot_delay_ms(gateway_time_ms) as u64
    } else if schedule.slot_elapsed_ms(gateway_time_ms) < schedule.guard_before_ms {
        (schedule.guard_before_ms - schedule.slot_elapsed_ms(gateway_time_ms)) as u64
    } else if schedule.is_active_window(gateway_time_ms) {
        0
    } else {
        schedule.next_slot_delay_ms(gateway_time_ms) as u64
    }
}

/// What happened when the timer fired. The frames to be sent are listed beside
/// it.
#[derive(Debug, Clone, Copy, PartialEq, Eq)]
pub enum TimerReport {
    /// Nothing is due.
    Idle,
    /// HELLO is sent again.
    HelloRetried,
    /// The gateway broadcasts a SYNC.
    SyncBroadcast { sync_seq: u16, slot: u8, status: GatewayJoinStatus, silence_buzzer: bool },
    /// An ALARM is sent again.
    AlarmRetried { attempt: u8 },
    /// An ALARM is given up.
    AlarmDropped { seq: u16, frame_type: FrameType },
    /// The relay passes on a SYNC.
    SyncForwarded,
    /// A HEARTBEAT is sent.
    HeartbeatSent { heartbeat_slot: u8, presence_mask: u8 },
    /// The sensor sends a reading.
    ReadingSent { sample: EnvironmentSample },
    /// The relay passes on the readings that wait, if any.
    ReadingsForwarded,
}

/// What a received frame led to. The frames to be sent are listed beside it.
#[derive(Debug, Clone, Copy, PartialEq, Eq)]
pub enum FrameReport {
    /// The frame asks for nothing.
    Nothing,
    /// The frame was dropped, as its sender does not own the slot it claims.
    OutOfSlot { claimed_slot: u8 },
    /// A child is admitted.
    ChildAdmitted,
    /// The gateway learns of a sensor behind the relay.
    SensorAnnounced,
    /// The gateway does not answer a HELLO, as only the relay joins it directly.
    HelloRefused,
    /// A reading reached the gateway.
    ReadingReceived { log: GatewayRxDataLog },
    /// A HEARTBEAT arrived.
    HeartbeatReceived { slot_id: u8, hop: u8, sync_seq: u16, presence_mask: u8 },
    /// The relay keeps a SYNC for its control slot.
    SyncQueued { sync_seq: u16, offset_ms: i64 },
    /// The relay acknowledges an ALARM and keeps it for its slot.
    AlarmQueued {
        origin_id: u8,
        origin_seq: u16,
        temp_centi_c: i16,
        humidity_centi_percent: u16,
    },
    /// The relay keeps a DATA for its slot.
    DataBuffered {
        origin_id: u8,
        origin_seq: u16,
        temp_centi_c: i16,
        humidity_centi_percent: u16,
    },
    /// The node joined.
    Joined { parent_id: u8, hop: u8, slot_id: u8 },
    /// The sensor's clock was set.
    Synced { sync_seq: u16, offset_ms: i64 },
    /// An ACK arrived.
    Acked { acked_seq: u16, acked_type: FrameType, cleared: bool },
}

/// State of the core task: the node itself, what waits to be sent, and what was
/// counted and seen.
#[verifier::ext_equal]
pub struct CoreState {
    pub node: NodeState,
    pub gateway_alarm_active: bool,
    pub latest_sample: EnvironmentSample,
    pub sensor_alarm_active: bool,
    pub pending: PendingView,
    pub buffered: Seq<FrameView>,
    pub sync_forward: Option<FrameView>,
    pub alarm_forward: Option<FrameView>,
    pub stats: GatewayStats,
    pub sensor_last_seen: Option<u64>,
    pub liveness: GatewayHeartbeatView,
    pub last_hello_ms: u64,
    pub last_tx_slot: Option<u8>,
    pub statistics_period: u64,
}

/// Something that happens to the core while it runs.
pub enum CoreEvent {
    /// A frame comes.
    Frame { frame: FrameView, local_time_ms: u64 },
    /// The timer fires.
    Timer { local_time_ms: u64 },
    /// The sensor may have a fresh sample.
    Sample { fresh: Option<EnvironmentSample> },
    /// The sensor reports how its alarm changed.
    Alarm { transition: AlarmTransition },
    /// The core is asked whether statistics are due.
    Statistics { local_time_ms: u64 },
}

/// A step of the core on the timer: the state after it, the frames to be sent,
/// and the report.
#[verifier::ext_equal]
pub struct TimerStep {
    pub state: CoreState,
    pub sends: Seq<FrameView>,
    pub report: TimerReport,
}

/// A step of the core on a frame.
#[verifier::ext_equal]
pub struct FrameStep {
    pub state: CoreState,
    pub sends: Seq<FrameView>,
    pub report: FrameReport,
}

/// A node's state, what waits for an ACK, and the frames that were sent, after
/// the relay passed on `received` to the gateway one after the other.
pub open spec fn forwarding(
    node: NodeState,
    pending: PendingView,
    received: Seq<FrameView>,
    local_time_ms: u64,
) -> (NodeState, PendingView, Seq<FrameView>)
    decreases received.len(),
{
    if received.len() == 0 {
        (node, pending, Seq::empty())
    } else {
        let (node, pending, sends) = forwarding(
            node,
            pending,
            received.drop_last(),
            local_time_ms,
        );
        let frame = node.forwarded(received.last(), GATEWAY_ID, local_time_ms);
        (node.after_control(), pending.after_sending(frame, local_time_ms), sends.push(frame))
    }
}

/// A frame, if there is one, as a sequence.
pub open spec fn one_or_none(frame: Option<FrameView>) -> Seq<FrameView> {
    match frame {
        Some(frame) => seq![frame],
        None => Seq::empty(),
    }
}

impl CoreState {
    /// The core of a node of this role, as it starts at a local time.
    pub open spec fn initial(role: NodeRole, local_time_ms: u64) -> CoreState {
        CoreState {
            node: NodeState::initial(role),
            gateway_alarm_active: false,
            latest_sample: EnvironmentSample::normal(),
            sensor_alarm_active: false,
            pending: PendingView::initial(),
            buffered: Seq::empty(),
            sync_forward: None,
            alarm_forward: None,
            stats: GatewayStats::new(),
            sensor_last_seen: None,
            liveness: GatewayHeartbeatView::initial(),
            last_hello_ms: local_time_ms,
            last_tx_slot: None,
            statistics_period: local_time_ms / STATISTICS_PERIOD_MS,
        }
    }

    /// After the start: the gateway is on the air, and any other node has sent its
    /// first HELLO.
    pub open spec fn started(self) -> CoreState {
        CoreState {
            node: if self.node.role == NodeRole::Gateway {
                NodeState { phase: NetworkPhase::Joined, ..self.node }
            } else {
                self.node.after_control()
            },
            ..self
        }
    }

    /// A frame of this type whose payload is a reading.
    pub open spec fn is_reading(frame: FrameView, frame_type: FrameType) -> bool {
        frame.frame_type == frame_type && payload::read_data(frame.payload) is Some
    }

    /// What holds of every core: only the relay keeps frames to pass on, and it
    /// keeps each kind in its place.
    pub open spec fn is_valid(self) -> bool {
        &&& self.node.is_valid()
        &&& self.pending.is_valid()
        &&& self.buffered.len() <= relay::RELAY_FORWARD_CAPACITY
        &&& forall|i: int|
            0 <= i < self.buffered.len() ==> Self::is_reading(
                #[trigger] self.buffered[i],
                FrameType::Data,
            )
        &&& self.alarm_forward matches Some(frame) ==> Self::is_reading(frame, FrameType::Alarm)
        &&& self.sync_forward matches Some(frame) ==> frame.frame_type == FrameType::Sync
            || frame.frame_type == FrameType::Schedule
        &&& self.node.role != NodeRole::Relay ==> self.buffered.len() == 0
            && self.alarm_forward is None && self.sync_forward is None
    }

    /// An ALARM that waits for its ACK was sent in a slot of its sender, by the
    /// node's current schedule.
    pub open spec fn waits_in_own_slot(self) -> bool {
        self.pending.frame matches Some(frame) ==> self.node.schedule.slot_owner_ok(
            frame.node_role,
            frame.frame_type,
            self.node.schedule.slot_at(frame.gateway_time_ms),
        )
    }

    /// The gateway has not printed its statistics in the current period yet.
    pub open spec fn statistics_due(self, local_time_ms: u64) -> bool {
        self.node.role == NodeRole::Gateway && local_time_ms / STATISTICS_PERIOD_MS
            > self.statistics_period
    }

    /// After the core was asked whether statistics are due.
    pub open spec fn after_statistics(self, local_time_ms: u64) -> CoreState {
        if self.statistics_due(local_time_ms) {
            CoreState { statistics_period: local_time_ms / STATISTICS_PERIOD_MS, ..self }
        } else {
            self
        }
    }

    /// The node sends in the slots of the schedule: its clock is synced and it
    /// is the gateway or has joined.
    pub open spec fn follows_schedule(self) -> bool {
        self.node.is_synced() && (self.node.role == NodeRole::Gateway || self.node.phase
            == NetworkPhase::Joined)
    }

    /// The node looks for a parent.
    pub open spec fn is_searching(self) -> bool {
        self.node.phase == NetworkPhase::Searching && self.node.role != NodeRole::Gateway
    }

    /// How long the node waits for a frame before its timer fires.
    pub open spec fn wait_ms(self, local_time_ms: u64) -> u64 {
        let now_ms = self.node.gateway_time_ms(local_time_ms);
        if self.follows_schedule() {
            window_delay_ms(
                self.node.schedule,
                now_ms,
                self.node.schedule.slot_at(now_ms),
                self.last_tx_slot,
            )
        } else if self.is_searching() {
            let retry_ms = (self.last_hello_ms + HELLO_RETRY_INTERVAL_MS) % 0x1_0000_0000_0000_0000;
            if retry_ms > local_time_ms {
                (retry_ms - local_time_ms) as u64
            } else {
                0
            }
        } else {
            HELLO_RETRY_INTERVAL_MS
        }
    }

    /// The slot in which the node may send at a time: its active window is open
    /// and the slot was not used yet.
    pub open spec fn due_slot(self, local_time_ms: u64) -> Option<u8> {
        let now_ms = self.node.gateway_time_ms(local_time_ms);
        let slot = self.node.schedule.slot_at(now_ms);
        if self.node.schedule.is_active_window(now_ms) && self.last_tx_slot != Some(slot) {
            Some(slot)
        } else {
            None
        }
    }

    /// Nothing is sent.
    pub open spec fn idle(self) -> TimerStep {
        TimerStep { state: self, sends: Seq::empty(), report: TimerReport::Idle }
    }

    /// One frame is sent.
    pub open spec fn sending(self, frame: FrameView, report: TimerReport) -> TimerStep {
        TimerStep { state: self, sends: seq![frame], report }
    }

    /// HELLO is sent again.
    pub open spec fn hello_step(self, local_time_ms: u64) -> TimerStep {
        CoreState {
            node: self.node.after_control(),
            last_hello_ms: local_time_ms,
            ..self
        }.sending(self.node.hello(local_time_ms), TimerReport::HelloRetried)
    }

    /// The gateway broadcasts a SYNC.
    pub open spec fn sync_step(self, slot: u8, local_time_ms: u64) -> TimerStep {
        let frame = self.node.sync_frame(local_time_ms);
        let node = self.node.after_sync();
        CoreState { node, stats: self.stats.with_sync(node.sync_seq), ..self }.sending(
            frame,
            TimerReport::SyncBroadcast {
                sync_seq: node.sync_seq,
                slot,
                status: self.liveness.status(frame.gateway_time_ms, node.schedule),
                silence_buzzer: !self.gateway_alarm_active,
            },
        )
    }

    /// An ALARM is sent again or given up, if one is due.
    pub open spec fn retry_step(self, local_time_ms: u64) -> TimerStep {
        match self.pending.frame {
            Some(frame) => if self.pending.may_retry(local_time_ms) {
                CoreState { pending: self.pending.after_retry(local_time_ms), ..self }.sending(
                    frame,
                    TimerReport::AlarmRetried { attempt: (self.pending.attempts + 1) as u8 },
                )
            } else if self.pending.is_exhausted(local_time_ms) {
                TimerStep {
                    state: CoreState { pending: self.pending.emptied(), ..self },
                    sends: Seq::empty(),
                    report: TimerReport::AlarmDropped {
                        seq: frame.seq,
                        frame_type: frame.frame_type,
                    },
                }
            } else {
                self.idle()
            },
            None => self.idle(),
        }
    }

    /// The relay passes on a SYNC, if one waits.
    pub open spec fn sync_forward_step(self, local_time_ms: u64) -> TimerStep {
        match self.sync_forward {
            Some(frame) => CoreState {
                node: self.node.after_control(),
                sync_forward: None,
                ..self
            }.sending(
                self.node.forwarded(frame, BROADCAST_ID, local_time_ms),
                TimerReport::SyncForwarded,
            ),
            None => self.idle(),
        }
    }

    /// A HEARTBEAT is sent.
    pub open spec fn heartbeat_step(
        self,
        heartbeat_slot: u8,
        presence_mask: u8,
        local_time_ms: u64,
    ) -> TimerStep {
        CoreState { node: self.node.after_heartbeat(), ..self }.sending(
            self.node.heartbeat(local_time_ms, presence_mask),
            TimerReport::HeartbeatSent { heartbeat_slot, presence_mask },
        )
    }

    /// The sensor sends a reading: an ALARM while its alarm is on.
    pub open spec fn reading_step(self, local_time_ms: u64) -> TimerStep {
        let frame = self.node.reading(
            self.sensor_alarm_active,
            local_time_ms,
            self.latest_sample.temp_centi_c,
            self.latest_sample.humidity_centi_percent,
        );
        CoreState {
            node: self.node.after_reading(),
            pending: self.pending.after_sending(frame, local_time_ms),
            ..self
        }.sending(frame, TimerReport::ReadingSent { sample: self.latest_sample })
    }

    /// How many buffered DATA frames go out in one relay slot.
    pub open spec fn forward_count(self) -> nat {
        if self.buffered.len() <= MAX_FORWARD_PER_SLOT {
            self.buffered.len()
        } else {
            MAX_FORWARD_PER_SLOT as nat
        }
    }

    /// The readings that the relay passes on in its slot: an ALARM that waits,
    /// and then the oldest buffered DATA.
    pub open spec fn due_readings(self) -> Seq<FrameView> {
        one_or_none(self.alarm_forward) + self.buffered.take(self.forward_count() as int)
    }

    /// The relay passes on readings.
    pub open spec fn forward_step(self, local_time_ms: u64) -> TimerStep {
        let (node, pending, sends) = forwarding(
            self.node,
            self.pending,
            self.due_readings(),
            local_time_ms,
        );
        TimerStep {
            state: CoreState {
                node,
                pending,
                buffered: self.buffered.skip(self.forward_count() as int),
                alarm_forward: None,
                ..self
            },
            sends,
            report: TimerReport::ReadingsForwarded,
        }
    }

    /// What the node does in a slot.
    pub open spec fn slot_step(self, slot: u8, local_time_ms: u64) -> TimerStep {
        let schedule = self.node.schedule;
        match self.node.role {
            NodeRole::Gateway => if slot == schedule.sync_slot {
                self.sync_step(slot, local_time_ms)
            } else {
                self.idle()
            },
            NodeRole::Relay => if slot == schedule.alarm_retry_slot {
                self.retry_step(local_time_ms)
            } else if slot == schedule.relay_control_slot {
                self.sync_forward_step(local_time_ms)
            } else if slot == schedule.relay_heartbeat_slot {
                self.heartbeat_step(
                    schedule.relay_heartbeat_slot,
                    liveness::relay_presence(
                        self.sensor_last_seen,
                        self.node.gateway_time_ms(local_time_ms),
                        schedule,
                    ),
                    local_time_ms,
                )
            } else if slot == schedule.relay_slot {
                self.forward_step(local_time_ms)
            } else {
                self.idle()
            },
            NodeRole::Sensor => if slot == schedule.alarm_retry_slot {
                self.retry_step(local_time_ms)
            } else if slot == schedule.sensor_heartbeat_slot {
                self.heartbeat_step(
                    schedule.sensor_heartbeat_slot,
                    protocol::presence_bit(self.node.role),
                    local_time_ms,
                )
            } else if slot == schedule.sensor_slot {
                self.reading_step(local_time_ms)
            } else {
                self.idle()
            },
        }
    }

    /// What the node does when its timer fires.
    pub open spec fn timer_step(self, local_time_ms: u64) -> TimerStep {
        if self.follows_schedule() {
            match self.due_slot(local_time_ms) {
                Some(slot) => CoreState { last_tx_slot: Some(slot), ..self }.slot_step(
                    slot,
                    local_time_ms,
                ),
                None => self.idle(),
            }
        } else if self.is_searching() && local_time_ms - self.last_hello_ms
            >= HELLO_RETRY_INTERVAL_MS {
            self.hello_step(local_time_ms)
        } else {
            self.idle()
        }
    }

    /// With the last known sample, where there is a fresh one.
    pub open spec fn with_sample(self, fresh: Option<EnvironmentSample>) -> CoreState {
        match fresh {
            Some(sample) => CoreState { latest_sample: sample, ..self },
            None => self,
        }
    }

    /// After a change of the sensor's alarm.
    pub open spec fn after_transition(self, transition: AlarmTransition) -> CoreState {
        match transition {
            AlarmTransition::Raised => CoreState { sensor_alarm_active: true, ..self },
            AlarmTransition::Cleared => CoreState {
                sensor_alarm_active: false,
                pending: if self.pending.holds(FrameType::Alarm) {
                    self.pending.emptied()
                } else {
                    self.pending
                },
                ..self
            },
            AlarmTransition::Unchanged => self,
        }
    }

    /// Nothing is sent, and nothing is kept.
    pub open spec fn done(self, report: FrameReport) -> FrameStep {
        FrameStep { state: self, sends: Seq::empty(), report }
    }

    /// A child is admitted with a JOIN_ACK, after which `notices` are sent.
    pub open spec fn admit_step(
        self,
        frame: FrameView,
        notices: Seq<FrameView>,
        local_time_ms: u64,
    ) -> FrameStep {
        FrameStep {
            state: CoreState { node: self.node.after_control(), ..self },
            sends: seq![self.node.join_ack(frame.src_id, frame.node_role, local_time_ms)]
                + notices,
            report: FrameReport::ChildAdmitted,
        }
    }

    /// The ACK for an ALARM, and nothing for a DATA.
    pub open spec fn acks(self, frame: FrameView, alarm: bool, local_time_ms: u64) -> Seq<
        FrameView,
    > {
        if alarm {
            seq![self.node.ack(frame.src_id, frame.seq, frame.frame_type, local_time_ms)]
        } else {
            Seq::empty()
        }
    }

    /// The node's state after the ACK for an ALARM was built.
    pub open spec fn node_after_acks(self, alarm: bool) -> NodeState {
        if alarm {
            self.node.after_control()
        } else {
            self.node
        }
    }

    /// What the gateway does with its buzzer for a reading: on with an ALARM, and
    /// off with the first DATA after one.
    pub open spec fn buzzer_action(self, alarm: bool) -> BuzzerAction {
        if alarm {
            BuzzerAction::On
        } else if self.gateway_alarm_active {
            BuzzerAction::Off
        } else {
            BuzzerAction::Unchanged
        }
    }

    /// A reading reached the gateway.
    pub open spec fn gateway_reading_step(
        self,
        frame: FrameView,
        origin_id: u8,
        origin_seq: u16,
        temp_centi_c: i16,
        humidity_centi_percent: u16,
        alarm: bool,
        local_time_ms: u64,
    ) -> FrameStep {
        let now_ms = self.node.gateway_time_ms(local_time_ms);
        FrameStep {
            state: CoreState {
                node: self.node_after_acks(alarm),
                gateway_alarm_active: alarm,
                stats: self.stats.with_rx_data(frame.frame_type, origin_seq, alarm),
                liveness: if frame.node_role == NodeRole::Relay && origin_id
                    == NodeRole::Sensor.node_id() {
                    self.liveness.relayed_frame_seen(now_ms).reported(now_ms, self.node.schedule)
                } else {
                    self.liveness
                },
                ..self
            },
            sends: self.acks(frame, alarm, local_time_ms),
            report: FrameReport::ReadingReceived {
                log: GatewayRxDataLog {
                    frame_type: frame.frame_type,
                    gateway_time_ms: frame.gateway_time_ms,
                    origin_id,
                    origin_seq,
                    via_id: frame.src_id,
                    relay_seq: frame.seq,
                    hop: if frame.hop == u8::MAX {
                        u8::MAX
                    } else {
                        (frame.hop + 1) as u8
                    },
                    temp_centi_c,
                    humidity_centi_percent,
                    alarm,
                    ack_seq: if alarm {
                        Some(demo::following(self.node.seq))
                    } else {
                        None
                    },
                    buzzer_action: self.buzzer_action(alarm),
                    origin_seq_gap: demo_log::origin_gap(self.stats.last_origin_seq, origin_seq),
                },
            },
        }
    }

    /// The gateway acts on a frame that it has applied.
    pub open spec fn gateway_step(
        self,
        frame: FrameView,
        action: FrameAction,
        local_time_ms: u64,
    ) -> FrameStep {
        if frame.frame_type == FrameType::Hello {
            if frame.node_role == NodeRole::Relay {
                self.admit_step(frame, Seq::empty(), local_time_ms)
            } else if frame.node_role == NodeRole::Sensor && frame.hop > 0 && frame.dst_id
                == GATEWAY_ID {
                self.done(FrameReport::SensorAnnounced)
            } else {
                self.done(FrameReport::HelloRefused)
            }
        } else {
            match action {
                FrameAction::Data {
                    origin_id,
                    origin_seq,
                    temp_centi_c,
                    humidity_centi_percent,
                    alarm,
                } => self.gateway_reading_step(
                    frame,
                    origin_id,
                    origin_seq,
                    temp_centi_c,
                    humidity_centi_percent,
                    alarm,
                    local_time_ms,
                ),
                FrameAction::Heartbeat { slot_id, hop, sync_seq, presence_mask } => {
                    let now_ms = self.node.gateway_time_ms(local_time_ms);
                    CoreState {
                        liveness: if frame.node_role == NodeRole::Relay {
                            self.liveness.heartbeat_seen(presence_mask, now_ms).reported(
                                now_ms,
                                self.node.schedule,
                            )
                        } else {
                            self.liveness
                        },
                        ..self
                    }.done(
                        FrameReport::HeartbeatReceived { slot_id, hop, sync_seq, presence_mask },
                    )
                },
                _ => self.done(FrameReport::Nothing),
            }
        }
    }

    /// The state with the sensor seen at a local time, if `seen`.
    pub open spec fn with_sensor_seen(self, seen: bool, local_time_ms: u64) -> CoreState {
        if seen {
            CoreState {
                sensor_last_seen: Some(self.node.gateway_time_ms(local_time_ms)),
                ..self
            }
        } else {
            self
        }
    }

    /// A reading reached the relay.
    pub open spec fn relay_reading_step(
        self,
        frame: FrameView,
        origin_id: u8,
        origin_seq: u16,
        temp_centi_c: i16,
        humidity_centi_percent: u16,
        alarm: bool,
        local_time_ms: u64,
    ) -> FrameStep {
        let state = self.with_sensor_seen(
            frame.node_role == NodeRole::Sensor && origin_id == NodeRole::Sensor.node_id(),
            local_time_ms,
        );
        FrameStep {
            state: if alarm {
                CoreState {
                    node: self.node.after_control(),
                    alarm_forward: Some(frame),
                    ..state
                }
            } else {
                CoreState { buffered: relay::newest(self.buffered.push(frame)), ..state }
            },
            sends: self.acks(frame, alarm, local_time_ms),
            report: if alarm {
                FrameReport::AlarmQueued {
                    origin_id,
                    origin_seq,
                    temp_centi_c,
                    humidity_centi_percent,
                }
            } else {
                FrameReport::DataBuffered {
                    origin_id,
                    origin_seq,
                    temp_centi_c,
                    humidity_centi_percent,
                }
            },
        }
    }

    /// An ACK arrived.
    pub open spec fn ack_step(self, acked_seq: u16, acked_type: FrameType) -> FrameStep {
        CoreState { pending: self.pending.after_ack(acked_seq, acked_type), ..self }.done(
            FrameReport::Acked {
                acked_seq,
                acked_type,
                cleared: self.pending.is_acked_by(acked_seq, acked_type),
            },
        )
    }

    /// The relay acts on a frame that it has applied.
    pub open spec fn relay_step(
        self,
        frame: FrameView,
        action: FrameAction,
        local_time_ms: u64,
    ) -> FrameStep {
        if frame.frame_type == FrameType::Hello {
            if frame.node_role == NodeRole::Sensor {
                let notice = FrameView { dst_id: GATEWAY_ID, hop: self.node.hop, ..frame };
                self.admit_step(frame, seq![notice], local_time_ms)
            } else {
                self.done(FrameReport::Nothing)
            }
        } else {
            match action {
                FrameAction::Heartbeat { slot_id, hop, sync_seq, presence_mask } =>
                    self.with_sensor_seen(
                    frame.node_role == NodeRole::Sensor && presence_mask & protocol::presence_bit(
                        NodeRole::Sensor,
                    ) != 0,
                    local_time_ms,
                ).done(FrameReport::HeartbeatReceived { slot_id, hop, sync_seq, presence_mask }),
                FrameAction::Synced { sync_seq, offset_ms } => CoreState {
                    sync_forward: Some(frame),
                    ..self
                }.done(FrameReport::SyncQueued { sync_seq, offset_ms }),
                FrameAction::Data {
                    origin_id,
                    origin_seq,
                    temp_centi_c,
                    humidity_centi_percent,
                    alarm,
                } => self.relay_reading_step(
                    frame,
                    origin_id,
                    origin_seq,
                    temp_centi_c,
                    humidity_centi_percent,
                    alarm,
                    local_time_ms,
                ),
                FrameAction::Joined { parent_id, hop, slot_id } => self.done(
                    FrameReport::Joined { parent_id, hop, slot_id },
                ),
                FrameAction::Ack { acked_seq, acked_type } => self.ack_step(acked_seq, acked_type),
                FrameAction::Ignore => self.done(FrameReport::Nothing),
            }
        }
    }

    /// The sensor acts on a frame that it has applied.
    pub open spec fn sensor_step(self, action: FrameAction) -> FrameStep {
        match action {
            FrameAction::Joined { parent_id, hop, slot_id } => self.done(
                FrameReport::Joined { parent_id, hop, slot_id },
            ),
            FrameAction::Synced { sync_seq, offset_ms } => self.done(
                FrameReport::Synced { sync_seq, offset_ms },
            ),
            FrameAction::Ack { acked_seq, acked_type } => self.ack_step(acked_seq, acked_type),
            _ => self.done(FrameReport::Nothing),
        }
    }

    /// What the node does with a frame that it receives.
    pub open spec fn frame_step(self, frame: FrameView, local_time_ms: u64) -> FrameStep {
        if !self.node.accepts_slot_of(frame) {
            CoreState { stats: self.stats.with_slot_violation(), ..self }.done(
                FrameReport::OutOfSlot {
                    claimed_slot: self.node.schedule.slot_at(frame.gateway_time_ms),
                },
            )
        } else {
            let action = self.node.reaction(frame, local_time_ms);
            let state = CoreState { node: self.node.after_frame(frame, local_time_ms), ..self };
            match self.node.role {
                NodeRole::Gateway => state.gateway_step(frame, action, local_time_ms),
                NodeRole::Relay => state.relay_step(frame, action, local_time_ms),
                NodeRole::Sensor => state.sensor_step(action),
            }
        }
    }

    /// The state after an event.
    #[verifier::opaque]
    pub open spec fn after_event(self, event: CoreEvent) -> CoreState {
        match event {
            CoreEvent::Frame { frame, local_time_ms } => self.frame_step(
                frame,
                local_time_ms,
            ).state,
            CoreEvent::Timer { local_time_ms } => self.timer_step(local_time_ms).state,
            CoreEvent::Sample { fresh } => self.with_sample(fresh),
            CoreEvent::Alarm { transition } => self.after_transition(transition),
            CoreEvent::Statistics { local_time_ms } => self.after_statistics(local_time_ms),
        }
    }

    /// The state after events that happen one after the other.
    pub open spec fn after_events(self, events: Seq<CoreEvent>) -> CoreState
        decreases events.len(),
    {
        if events.len() == 0 {
            self
        } else {
            self.after_events(events.drop_last()).after_event(events.last())
        }
    }
}

} // verus!
