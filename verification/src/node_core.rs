//! Decisions of the core task: what a node sends and keeps when a frame arrives,
//! when its timer fires, and when its sensor reports.
//!
//! The core does no I/O. The task around it measures time, waits, and sends the
//! frames that the core hands out.

use vstd::prelude::*;

pub use crate::core_state::{
    FrameReport, TimerReport, BEST_EFFORT_REPEAT_GAP_MS, BEST_EFFORT_TX_REPEATS,
    HELLO_RETRY_INTERVAL_MS, MAX_FORWARD_PER_SLOT, STATISTICS_PERIOD_MS,
};

use crate::alarm::{AlarmTransition, EnvironmentSample};
use crate::core_state;
use crate::core_state::CoreState;
use crate::demo::{DemoNode, FrameAction, NetworkPhase};
use crate::demo_log::{BuzzerAction, GatewayRxDataLog, GatewayStats};
use crate::error::AppResult;
use crate::liveness::{GatewayHeartbeatState, RelayHeartbeatState};
use crate::pending::PendingAck;
use crate::protocol::{
    heartbeat_presence_contains, heartbeat_presence_for_role, Frame, FrameType, FrameView,
};
use crate::relay::RelayForwardBuffer;
use crate::role::{NodeRole, BROADCAST_ID, GATEWAY_ID};

verus! {

pub open spec fn spec_tx_repeats(frame_type: FrameType) -> u8 {
    if frame_type == FrameType::Data {
        BEST_EFFORT_TX_REPEATS
    } else {
        1
    }
}

/// How often a frame is sent at a time: a DATA as often as a best-effort frame,
/// and every other frame once.
#[verifier::when_used_as_spec(spec_tx_repeats)]
pub fn tx_repeats(frame_type: FrameType) -> (repeats: u8)
    ensures
        repeats == spec_tx_repeats(frame_type),
{
    match frame_type {
        FrameType::Data => BEST_EFFORT_TX_REPEATS,
        _ => 1,
    }
}

/// The pause before each send of a frame that is sent `repeats` times. A frame
/// is sent at least once, and at once.
pub fn send_gaps_ms(repeats: u8) -> (gaps: Vec<u64>)
    ensures
        gaps@.len() == (if repeats == 0 {
            1
        } else {
            repeats as int
        }),
        forall|i: int|
            0 <= i < gaps@.len() ==> gaps@[i] == (if i == 0 {
                0
            } else {
                40u64
            }),
{
    let mut gaps: Vec<u64> = Vec::new();
    gaps.push(0);
    let mut sends: u8 = 1;
    while sends < repeats
        invariant
            gaps@.len() == sends,
            1 <= sends,
            sends <= repeats || sends == 1,
            forall|i: int|
                0 <= i < gaps@.len() ==> gaps@[i] == (if i == 0 {
                    0
                } else {
                    BEST_EFFORT_REPEAT_GAP_MS
                }),
        decreases repeats - sends,
    {
        gaps.push(BEST_EFFORT_REPEAT_GAP_MS);
        sends = sends + 1;
    }
    gaps
}

/// How long to wait before acting in `slot`.
pub fn tx_window_delay_ms(
    node: &DemoNode,
    gateway_time_ms: u64,
    slot: u8,
    last_tx_slot: Option<u8>,
) -> (delay: u64)
    requires
        node@.schedule.divides_time(),
    ensures
        delay == core_state::window_delay_ms(node@.schedule, gateway_time_ms, slot, last_tx_slot),
{
    let schedule = node.schedule();
    if is_slot(last_tx_slot, slot) {
        return schedule.next_slot_delay_ms(gateway_time_ms) as u64;
    }
    let elapsed: u32 = schedule.slot_elapsed_ms(gateway_time_ms);
    if elapsed < schedule.guard_before_ms {
        (schedule.guard_before_ms - elapsed) as u64
    } else if schedule.is_active_window(gateway_time_ms) {
        0
    } else {
        schedule.next_slot_delay_ms(gateway_time_ms) as u64
    }
}

/// Whether `last` is `slot`.
fn is_slot(last: Option<u8>, slot: u8) -> (same: bool)
    ensures
        same == (last == Some(slot)),
{
    match last {
        Some(used) => used == slot,
        None => false,
    }
}

/// What the timer led to: frames to be sent, in this order, and a report.
pub struct TimerOutcome {
    pub frames: Vec<Frame>,
    pub report: TimerReport,
}

/// What a received frame led to: frames to be sent, in this order, and a report.
pub struct FrameOutcome {
    pub frames: Vec<Frame>,
    pub report: FrameReport,
}

/// What a change of the sensor's alarm led to.
#[derive(Debug, Clone, Copy, PartialEq, Eq, Structural)]
pub enum AlarmReport {
    /// Nothing changed.
    Unchanged,
    /// The sensor sends ALARM from now on.
    Raised { sample: EnvironmentSample },
    /// The sensor sends DATA from now on. An ALARM that waited for its ACK may
    /// have been cancelled.
    Cleared { sample: EnvironmentSample, cancelled: bool },
}

/// State of the core task.
pub struct NodeCore {
    node: DemoNode,
    gateway_alarm_active: bool,
    latest_sample: EnvironmentSample,
    sensor_alarm_active: bool,
    pending_ack: PendingAck,
    relay_forward: RelayForwardBuffer,
    pending_sync_forward: Option<Frame>,
    pending_alarm_forward: Option<Frame>,
    gateway_stats: GatewayStats,
    relay_heartbeat: RelayHeartbeatState,
    gateway_heartbeat: GatewayHeartbeatState,
    last_hello_ms: u64,
    last_tx_slot: Option<u8>,
    statistics_period: u64,
}

/// What frames say.
pub open spec fn views(frames: Seq<Frame>) -> Seq<FrameView> {
    frames.map_values(|frame: Frame| frame@)
}

/// What a frame says, if there is one.
pub open spec fn view_of(frame: Option<Frame>) -> Option<FrameView> {
    match frame {
        Some(frame) => Some(frame@),
        None => None,
    }
}

impl View for NodeCore {
    type V = CoreState;

    closed spec fn view(&self) -> CoreState {
        CoreState {
            node: self.node@,
            gateway_alarm_active: self.gateway_alarm_active,
            latest_sample: self.latest_sample,
            sensor_alarm_active: self.sensor_alarm_active,
            pending: self.pending_ack@,
            buffered: self.relay_forward@,
            sync_forward: view_of(self.pending_sync_forward),
            alarm_forward: view_of(self.pending_alarm_forward),
            stats: self.gateway_stats,
            sensor_last_seen: self.relay_heartbeat@,
            liveness: self.gateway_heartbeat@,
            last_hello_ms: self.last_hello_ms,
            last_tx_slot: self.last_tx_slot,
            statistics_period: self.statistics_period,
        }
    }
}

/// An outcome that sends nothing.
fn idle_outcome() -> (outcome: TimerOutcome)
    ensures
        views(outcome.frames@) == Seq::<FrameView>::empty(),
        outcome.report == TimerReport::Idle,
{
    let outcome = TimerOutcome { frames: Vec::new(), report: TimerReport::Idle };
    assert(views(outcome.frames@) =~= Seq::<FrameView>::empty());
    outcome
}

/// An outcome that sends one frame.
fn sending_outcome(frame: Frame, report: TimerReport) -> (outcome: TimerOutcome)
    ensures
        views(outcome.frames@) == seq![frame@],
        outcome.report == report,
{
    let mut frames: Vec<Frame> = Vec::new();
    let ghost view = frame@;
    frames.push(frame);
    assert(views(frames@) =~= seq![view]);
    TimerOutcome { frames, report }
}

/// An outcome that sends nothing.
fn quiet_outcome(report: FrameReport) -> (outcome: FrameOutcome)
    ensures
        views(outcome.frames@) == Seq::<FrameView>::empty(),
        outcome.report == report,
{
    let outcome = FrameOutcome { frames: Vec::new(), report };
    assert(views(outcome.frames@) =~= Seq::<FrameView>::empty());
    outcome
}

/// Add a frame to those that are to be sent.
fn push_frame(frames: &mut Vec<Frame>, frame: Frame)
    ensures
        views(final(frames)@) == views(old(frames)@).push(frame@),
{
    let ghost before = frames@;
    frames.push(frame);
    assert(views(frames@) =~= views(before).push(frame@));
}

impl NodeCore {
    /// The core of a node of this role, as it starts at a local time.
    pub fn new(role: NodeRole, local_time_ms: u64) -> (core: NodeCore)
        ensures
            core@ == CoreState::initial(role, local_time_ms),
    {
        NodeCore {
            node: DemoNode::new(role),
            gateway_alarm_active: false,
            latest_sample: EnvironmentSample::normal(),
            sensor_alarm_active: false,
            pending_ack: PendingAck::new(),
            relay_forward: RelayForwardBuffer::new(),
            pending_sync_forward: None,
            pending_alarm_forward: None,
            gateway_stats: GatewayStats::new(),
            relay_heartbeat: RelayHeartbeatState::new(),
            gateway_heartbeat: GatewayHeartbeatState::new(),
            last_hello_ms: local_time_ms,
            last_tx_slot: None,
            statistics_period: local_time_ms / STATISTICS_PERIOD_MS,
        }
    }

    /// Protocol state of the node.
    pub fn node(&self) -> (node: &DemoNode)
        ensures
            node@ == self@.node,
    {
        &self.node
    }

    /// What the gateway has counted.
    pub fn stats(&self) -> (stats: &GatewayStats)
        ensures
            *stats == self@.stats,
    {
        &self.gateway_stats
    }

    /// Whether DATA waits for the relay slot.
    pub fn has_buffered_data(&self) -> (buffered: bool)
        ensures
            buffered == (self@.buffered.len() > 0),
    {
        self.relay_forward.has_pending()
    }

    /// Whether an ALARM waits for its ACK.
    pub fn has_pending_ack(&self) -> (pending: bool)
        ensures
            pending == self@.pending.frame is Some,
    {
        self.pending_ack.has_pending()
    }

    /// Begin: the gateway is on the air at once, and any other node sends its
    /// first HELLO.
    pub fn start(&mut self, local_time_ms: u64) -> (started: AppResult<Option<Frame>>)
        ensures
            started is Ok,
            old(self)@.node.role == NodeRole::Gateway ==> started->Ok_0 is None,
            old(self)@.node.role != NodeRole::Gateway ==> view_of(started->Ok_0) == Some(
                old(self)@.node.hello(local_time_ms),
            ),
            final(self)@ == old(self)@.started(),
    {
        match self.node.role() {
            NodeRole::Gateway => {
                self.node.mark_joined();
                Ok(None)
            },
            NodeRole::Relay | NodeRole::Sensor => {
                let frame = self.node.make_hello(local_time_ms)?;
                Ok(Some(frame))
            },
        }
    }

    /// Whether the node sends in the slots of the schedule.
    pub fn follow_schedule(&self) -> (follows: bool)
        ensures
            follows == self@.follows_schedule(),
    {
        self.node.is_synced() && (self.node.role() == NodeRole::Gateway || self.node.phase()
            == NetworkPhase::Joined)
    }

    /// Whether the node looks for a parent.
    fn is_searching(&self) -> (searching: bool)
        ensures
            searching == self@.is_searching(),
    {
        self.node.phase() == NetworkPhase::Searching && self.node.role() != NodeRole::Gateway
    }

    /// How long to wait for a frame before the timer fires.
    pub fn wait_ms(&self, local_time_ms: u64) -> (wait: u64)
        requires
            self@.node.schedule.divides_time(),
        ensures
            wait == self@.wait_ms(local_time_ms),
    {
        let gateway_time_ms: u64 = self.node.gateway_time_ms(local_time_ms);
        let slot: u8 = self.node.schedule().slot_at(gateway_time_ms);
        if self.follow_schedule() {
            tx_window_delay_ms(&self.node, gateway_time_ms, slot, self.last_tx_slot)
        } else if self.is_searching() {
            self.last_hello_ms.wrapping_add(HELLO_RETRY_INTERVAL_MS).saturating_sub(local_time_ms)
        } else {
            HELLO_RETRY_INTERVAL_MS
        }
    }

    /// Whether the gateway is to print its statistics now. It is so once in each
    /// period since the start.
    pub fn poll_statistics(&mut self, local_time_ms: u64) -> (due: bool)
        ensures
            due == old(self)@.statistics_due(local_time_ms),
            final(self)@ == old(self)@.after_statistics(local_time_ms),
    {
        let period: u64 = local_time_ms / STATISTICS_PERIOD_MS;
        if self.node.role() != NodeRole::Gateway || period <= self.statistics_period {
            return false;
        }
        self.statistics_period = period;
        true
    }

    /// Use the latest sample, if there is a fresh one.
    pub fn take_latest_sensor_sample(&mut self, fresh: Option<EnvironmentSample>)
        ensures
            final(self)@ == old(self)@.with_sample(fresh),
    {
        if let Some(sample) = fresh {
            self.latest_sample = sample;
        }
    }

    /// Act on a change of the sensor's alarm.
    pub fn handle_sensor_alarm_transition(&mut self, transition: AlarmTransition) -> (report:
        AlarmReport)
        ensures
            final(self)@ == old(self)@.after_transition(transition),
            report == match transition {
                AlarmTransition::Raised => AlarmReport::Raised {
                    sample: old(self)@.latest_sample,
                },
                AlarmTransition::Cleared => AlarmReport::Cleared {
                    sample: old(self)@.latest_sample,
                    cancelled: old(self)@.pending.holds(FrameType::Alarm),
                },
                AlarmTransition::Unchanged => AlarmReport::Unchanged,
            },
    {
        let sample = self.latest_sample;
        match transition {
            AlarmTransition::Raised => {
                self.sensor_alarm_active = true;
                AlarmReport::Raised { sample }
            },
            AlarmTransition::Cleared => {
                self.sensor_alarm_active = false;
                let cancelled = self.pending_ack.cancel_if_matches(FrameType::Alarm);
                AlarmReport::Cleared { sample, cancelled }
            },
            AlarmTransition::Unchanged => AlarmReport::Unchanged,
        }
    }

    /// Act on the timer.
    pub fn on_timer(&mut self, local_time_ms: u64) -> (done: AppResult<TimerOutcome>)
        requires
            old(self)@.follows_schedule() ==> old(self)@.node.schedule.divides_time(),
        ensures
            done matches Ok(outcome) && views(outcome.frames@) == old(self)@.timer_step(
                local_time_ms,
            ).sends && outcome.report == old(self)@.timer_step(local_time_ms).report,
            final(self)@ == old(self)@.timer_step(local_time_ms).state,
    {
        if !self.follow_schedule() {
            if self.is_searching() && local_time_ms.saturating_sub(self.last_hello_ms)
                >= HELLO_RETRY_INTERVAL_MS {
                let frame = self.node.make_hello(local_time_ms)?;
                self.last_hello_ms = local_time_ms;
                return Ok(sending_outcome(frame, TimerReport::HelloRetried));
            }
            return Ok(idle_outcome());
        }
        let gateway_time_ms: u64 = self.node.gateway_time_ms(local_time_ms);
        if !self.node.schedule().is_active_window(gateway_time_ms) {
            return Ok(idle_outcome());
        }
        let slot: u8 = self.node.schedule().slot_at(gateway_time_ms);
        if is_slot(self.last_tx_slot, slot) {
            return Ok(idle_outcome());
        }
        self.last_tx_slot = Some(slot);
        self.act_in_slot(slot, local_time_ms)
    }

    /// Do what the node does in a slot.
    fn act_in_slot(&mut self, slot: u8, local_time_ms: u64) -> (done: AppResult<TimerOutcome>)
        ensures
            done matches Ok(outcome) && views(outcome.frames@) == old(self)@.slot_step(
                slot,
                local_time_ms,
            ).sends && outcome.report == old(self)@.slot_step(slot, local_time_ms).report,
            final(self)@ == old(self)@.slot_step(slot, local_time_ms).state,
    {
        let schedule = self.node.schedule();
        match self.node.role() {
            NodeRole::Gateway => {
                if slot == schedule.sync_slot {
                    return self.broadcast_sync(slot, local_time_ms);
                }
            },
            NodeRole::Relay => {
                if slot == schedule.alarm_retry_slot {
                    return Ok(self.retry_alarm(local_time_ms));
                }
                if slot == schedule.relay_control_slot {
                    return self.forward_sync(local_time_ms);
                }
                if slot == schedule.relay_heartbeat_slot {
                    let presence_mask: u8 = self.relay_heartbeat.presence_mask(
                        self.node.gateway_time_ms(local_time_ms),
                        schedule,
                    );
                    return self.transmit_heartbeat(
                        schedule.relay_heartbeat_slot,
                        presence_mask,
                        local_time_ms,
                    );
                }
                if slot == schedule.relay_slot {
                    return self.forward_readings(local_time_ms);
                }
            },
            NodeRole::Sensor => {
                if slot == schedule.alarm_retry_slot {
                    return Ok(self.retry_alarm(local_time_ms));
                }
                if slot == schedule.sensor_heartbeat_slot {
                    let presence_mask: u8 = heartbeat_presence_for_role(self.node.role());
                    return self.transmit_heartbeat(
                        schedule.sensor_heartbeat_slot,
                        presence_mask,
                        local_time_ms,
                    );
                }
                if slot == schedule.sensor_slot {
                    return self.send_reading(local_time_ms);
                }
            },
        }
        Ok(idle_outcome())
    }

    /// Broadcast a SYNC.
    fn broadcast_sync(&mut self, slot: u8, local_time_ms: u64) -> (done: AppResult<TimerOutcome>)
        ensures
            done matches Ok(outcome) && views(outcome.frames@) == old(self)@.sync_step(
                slot,
                local_time_ms,
            ).sends && outcome.report == old(self)@.sync_step(slot, local_time_ms).report,
            final(self)@ == old(self)@.sync_step(slot, local_time_ms).state,
    {
        let frame = self.node.make_sync(local_time_ms)?;
        let sync_seq: u16 = self.node.sync_seq();
        self.gateway_stats.mark_sync_sent(sync_seq);
        let status = self.gateway_heartbeat.status(frame.gateway_time_ms, self.node.schedule());
        let report = TimerReport::SyncBroadcast {
            sync_seq,
            slot,
            status,
            silence_buzzer: !self.gateway_alarm_active,
        };
        Ok(sending_outcome(frame, report))
    }

    /// Send an ALARM again, or give it up.
    fn retry_alarm(&mut self, local_time_ms: u64) -> (outcome: TimerOutcome)
        ensures
            views(outcome.frames@) == old(self)@.retry_step(local_time_ms).sends,
            outcome.report == old(self)@.retry_step(local_time_ms).report,
            final(self)@ == old(self)@.retry_step(local_time_ms).state,
    {
        if let Some((frame, attempt)) = self.pending_ack.next_retry(local_time_ms) {
            return sending_outcome(frame, TimerReport::AlarmRetried { attempt });
        }
        let mut outcome = idle_outcome();
        if self.pending_ack.is_exhausted(local_time_ms) {
            if let Some((seq, frame_type)) = self.pending_ack.drop_exhausted() {
                outcome.report = TimerReport::AlarmDropped { seq, frame_type };
            }
        }
        outcome
    }

    /// Pass on a SYNC that waits.
    fn forward_sync(&mut self, local_time_ms: u64) -> (done: AppResult<TimerOutcome>)
        ensures
            done matches Ok(outcome) && views(outcome.frames@) == old(self)@.sync_forward_step(
                local_time_ms,
            ).sends && outcome.report == old(self)@.sync_forward_step(local_time_ms).report,
            final(self)@ == old(self)@.sync_forward_step(local_time_ms).state,
    {
        match self.pending_sync_forward.take() {
            Some(received) => {
                let frame = self.node.make_forwarded(&received, BROADCAST_ID, local_time_ms)?;
                Ok(sending_outcome(frame, TimerReport::SyncForwarded))
            },
            None => Ok(idle_outcome()),
        }
    }

    /// Send a HEARTBEAT.
    fn transmit_heartbeat(&mut self, heartbeat_slot: u8, presence_mask: u8, local_time_ms: u64) -> (done:
        AppResult<TimerOutcome>)
        ensures
            done matches Ok(outcome) && views(outcome.frames@) == old(self)@.heartbeat_step(
                heartbeat_slot,
                presence_mask,
                local_time_ms,
            ).sends && outcome.report == old(self)@.heartbeat_step(
                heartbeat_slot,
                presence_mask,
                local_time_ms,
            ).report,
            final(self)@ == old(self)@.heartbeat_step(
                heartbeat_slot,
                presence_mask,
                local_time_ms,
            ).state,
    {
        let frame = self.node.make_heartbeat_with_presence(local_time_ms, presence_mask)?;
        Ok(sending_outcome(frame, TimerReport::HeartbeatSent { heartbeat_slot, presence_mask }))
    }

    /// Send a reading.
    fn send_reading(&mut self, local_time_ms: u64) -> (done: AppResult<TimerOutcome>)
        ensures
            done matches Ok(outcome) && views(outcome.frames@) == old(self)@.reading_step(
                local_time_ms,
            ).sends && outcome.report == old(self)@.reading_step(local_time_ms).report,
            final(self)@ == old(self)@.reading_step(local_time_ms).state,
    {
        let sample = self.latest_sample;
        let frame = if self.sensor_alarm_active {
            self.node.make_alarm(local_time_ms, sample.temp_centi_c, sample.humidity_centi_percent)?
        } else {
            self.node.make_data(local_time_ms, sample.temp_centi_c, sample.humidity_centi_percent)?
        };
        self.pending_ack.remember(&frame, local_time_ms);
        Ok(sending_outcome(frame, TimerReport::ReadingSent { sample }))
    }

    /// Pass on one reading to the gateway.
    fn forward_reading(&mut self, received: &Frame, local_time_ms: u64) -> (done: AppResult<Frame>)
        ensures
            ({
                let frame = old(self)@.node.forwarded(received@, GATEWAY_ID, local_time_ms);
                &&& done matches Ok(sent) && sent@ == frame
                &&& final(self)@ == CoreState {
                    node: old(self)@.node.after_control(),
                    pending: old(self)@.pending.after_sending(frame, local_time_ms),
                    ..old(self)@
                }
            }),
    {
        let frame = self.node.make_forwarded(received, GATEWAY_ID, local_time_ms)?;
        self.pending_ack.remember(&frame, local_time_ms);
        Ok(frame)
    }

    /// Pass on the readings that wait for the relay slot.
    fn forward_readings(&mut self, local_time_ms: u64) -> (done: AppResult<TimerOutcome>)
        ensures
            done matches Ok(outcome) && views(outcome.frames@) == old(self)@.forward_step(
                local_time_ms,
            ).sends && outcome.report == old(self)@.forward_step(local_time_ms).report,
            final(self)@ == old(self)@.forward_step(local_time_ms).state,
    {
        let ghost start = self@;
        let ghost due = start.due_readings();
        let ghost alarms = core_state::one_or_none(start.alarm_forward);
        let mut frames: Vec<Frame> = Vec::new();
        assert(views(frames@) =~= Seq::<FrameView>::empty());
        if let Some(alarm) = self.pending_alarm_forward.take() {
            let frame = self.forward_reading(&alarm, local_time_ms)?;
            proof {
                assert(alarms.drop_last() =~= Seq::<FrameView>::empty());
                reveal_with_fuel(core_state::forwarding, 2);
            }
            push_frame(&mut frames, frame);
        }
        let mut forwarded_count: usize = 0;
        assert(alarms + start.buffered.take(0) =~= alarms);
        while forwarded_count < MAX_FORWARD_PER_SLOT && self.relay_forward.has_pending()
            invariant
                forwarded_count <= start.forward_count(),
                alarms == core_state::one_or_none(start.alarm_forward),
                self@ == (CoreState {
                    node: self@.node,
                    pending: self@.pending,
                    buffered: start.buffered.skip(forwarded_count as int),
                    alarm_forward: None,
                    ..start
                }),
                (self@.node, self@.pending, views(frames@)) == core_state::forwarding(
                    start.node,
                    start.pending,
                    alarms + start.buffered.take(forwarded_count as int),
                    local_time_ms,
                ),
            decreases MAX_FORWARD_PER_SLOT - forwarded_count,
        {
            let ghost before = alarms + start.buffered.take(forwarded_count as int);
            let ghost after = alarms + start.buffered.take(forwarded_count + 1);
            if let Some(received) = self.relay_forward.take() {
                let frame = self.forward_reading(&received, local_time_ms)?;
                proof {
                    assert(after.drop_last() =~= before);
                    assert(after.last() == received@);
                    assert(start.buffered.skip(forwarded_count as int).skip(1)
                        =~= start.buffered.skip(forwarded_count + 1));
                }
                push_frame(&mut frames, frame);
            }
            forwarded_count = forwarded_count + 1;
        }
        assert(forwarded_count == start.forward_count());
        Ok(TimerOutcome { frames, report: TimerReport::ReadingsForwarded })
    }

    /// Act on a received frame.
    pub fn handle_received_frame(&mut self, frame: &Frame, local_time_ms: u64) -> (done: AppResult<
        FrameOutcome,
    >)
        requires
            old(self)@.node.is_synced() && frame.frame_type.is_periodic()
                ==> old(self)@.node.schedule.divides_time(),
        ensures
            done matches Ok(outcome) && views(outcome.frames@) == old(self)@.frame_step(
                frame@,
                local_time_ms,
            ).sends && outcome.report == old(self)@.frame_step(frame@, local_time_ms).report,
            final(self)@ == old(self)@.frame_step(frame@, local_time_ms).state,
    {
        if !self.node.accepts_frame_slot(frame) {
            self.gateway_stats.record_slot_violation();
            let claimed_slot: u8 = self.node.schedule().slot_at(frame.gateway_time_ms);
            return Ok(quiet_outcome(FrameReport::OutOfSlot { claimed_slot }));
        }
        let action = self.node.apply_frame(frame, local_time_ms);
        match self.node.role() {
            NodeRole::Gateway => self.act_as_gateway(frame, action, local_time_ms),
            NodeRole::Relay => self.act_as_relay(frame, action, local_time_ms),
            NodeRole::Sensor => Ok(self.act_as_sensor(action)),
        }
    }

    /// Act as the gateway on a frame that was applied.
    fn act_as_gateway(&mut self, frame: &Frame, action: FrameAction, local_time_ms: u64) -> (done:
        AppResult<FrameOutcome>)
        ensures
            done matches Ok(outcome) && views(outcome.frames@) == old(self)@.gateway_step(
                frame@,
                action,
                local_time_ms,
            ).sends && outcome.report == old(self)@.gateway_step(
                frame@,
                action,
                local_time_ms,
            ).report,
            final(self)@ == old(self)@.gateway_step(frame@, action, local_time_ms).state,
    {
        if frame.frame_type == FrameType::Hello {
            if frame.node_role == NodeRole::Relay {
                return self.admit_child(frame, None, local_time_ms);
            }
            if frame.node_role == NodeRole::Sensor && frame.hop > 0 && frame.dst_id == GATEWAY_ID {
                return Ok(quiet_outcome(FrameReport::SensorAnnounced));
            }
            return Ok(quiet_outcome(FrameReport::HelloRefused));
        }
        match action {
            FrameAction::Data {
                origin_id,
                origin_seq,
                temp_centi_c,
                humidity_centi_percent,
                alarm,
            } => {
                let mut frames: Vec<Frame> = Vec::new();
                assert(views(frames@) =~= Seq::<FrameView>::empty());
                let mut ack_seq: Option<u16> = None;
                if alarm {
                    let ack = self.node.make_ack(
                        frame.src_id,
                        frame.seq,
                        frame.frame_type,
                        local_time_ms,
                    )?;
                    ack_seq = Some(ack.seq);
                    push_frame(&mut frames, ack);
                }
                let mut buzzer_action = BuzzerAction::Unchanged;
                if alarm {
                    self.gateway_alarm_active = true;
                    buzzer_action = BuzzerAction::On;
                } else if self.gateway_alarm_active {
                    self.gateway_alarm_active = false;
                    buzzer_action = BuzzerAction::Off;
                }
                let origin_seq_gap = self.gateway_stats.record_rx_data(
                    frame.frame_type,
                    origin_seq,
                    ack_seq.is_some(),
                );
                if frame.node_role == NodeRole::Relay && origin_id == NodeRole::Sensor.node_id() {
                    let now_ms: u64 = self.node.gateway_time_ms(local_time_ms);
                    let _ = self.gateway_heartbeat.record_relayed_sensor_frame(
                        now_ms,
                        self.node.schedule(),
                    );
                }
                let log = GatewayRxDataLog {
                    frame_type: frame.frame_type,
                    gateway_time_ms: frame.gateway_time_ms,
                    origin_id,
                    origin_seq,
                    via_id: frame.src_id,
                    relay_seq: frame.seq,
                    hop: frame.hop.saturating_add(1),
                    temp_centi_c,
                    humidity_centi_percent,
                    alarm,
                    ack_seq,
                    buzzer_action,
                    origin_seq_gap,
                };
                Ok(FrameOutcome { frames, report: FrameReport::ReadingReceived { log } })
            },
            FrameAction::Heartbeat { slot_id, hop, sync_seq, presence_mask } => {
                if frame.node_role == NodeRole::Relay {
                    let now_ms: u64 = self.node.gateway_time_ms(local_time_ms);
                    let _ = self.gateway_heartbeat.record_relay_heartbeat(
                        presence_mask,
                        now_ms,
                        self.node.schedule(),
                    );
                }
                Ok(
                    quiet_outcome(
                        FrameReport::HeartbeatReceived { slot_id, hop, sync_seq, presence_mask },
                    ),
                )
            },
            _ => Ok(quiet_outcome(FrameReport::Nothing)),
        }
    }

    /// Admit a child, and then send `notice`.
    fn admit_child(&mut self, frame: &Frame, notice: Option<Frame>, local_time_ms: u64) -> (done:
        AppResult<FrameOutcome>)
        ensures
            done matches Ok(outcome) && views(outcome.frames@) == old(self)@.admit_step(
                frame@,
                core_state::one_or_none(view_of(notice)),
                local_time_ms,
            ).sends && outcome.report == FrameReport::ChildAdmitted,
            final(self)@ == old(self)@.admit_step(
                frame@,
                core_state::one_or_none(view_of(notice)),
                local_time_ms,
            ).state,
    {
        let ack = self.node.make_join_ack(frame.src_id, frame.node_role, local_time_ms)?;
        let mut frames: Vec<Frame> = Vec::new();
        assert(views(frames@) =~= Seq::<FrameView>::empty());
        push_frame(&mut frames, ack);
        if let Some(notice) = notice {
            push_frame(&mut frames, notice);
        }
        Ok(FrameOutcome { frames, report: FrameReport::ChildAdmitted })
    }

    /// Act as the relay on a frame that was applied.
    fn act_as_relay(&mut self, frame: &Frame, action: FrameAction, local_time_ms: u64) -> (done:
        AppResult<FrameOutcome>)
        ensures
            done matches Ok(outcome) && views(outcome.frames@) == old(self)@.relay_step(
                frame@,
                action,
                local_time_ms,
            ).sends && outcome.report == old(self)@.relay_step(
                frame@,
                action,
                local_time_ms,
            ).report,
            final(self)@ == old(self)@.relay_step(frame@, action, local_time_ms).state,
    {
        if frame.frame_type == FrameType::Hello {
            if frame.node_role == NodeRole::Sensor {
                let mut notice = frame.clone();
                notice.dst_id = GATEWAY_ID;
                notice.hop = self.node.hop();
                return self.admit_child(frame, Some(notice), local_time_ms);
            }
            return Ok(quiet_outcome(FrameReport::Nothing));
        }
        match action {
            FrameAction::Heartbeat { slot_id, hop, sync_seq, presence_mask } => {
                if frame.node_role == NodeRole::Sensor && heartbeat_presence_contains(
                    presence_mask,
                    NodeRole::Sensor,
                ) {
                    let now_ms: u64 = self.node.gateway_time_ms(local_time_ms);
                    self.relay_heartbeat.record_sensor_seen(now_ms);
                }
                Ok(
                    quiet_outcome(
                        FrameReport::HeartbeatReceived { slot_id, hop, sync_seq, presence_mask },
                    ),
                )
            },
            FrameAction::Synced { sync_seq, offset_ms } => {
                self.pending_sync_forward = Some(frame.clone());
                Ok(quiet_outcome(FrameReport::SyncQueued { sync_seq, offset_ms }))
            },
            FrameAction::Data {
                origin_id,
                origin_seq,
                temp_centi_c,
                humidity_centi_percent,
                alarm,
            } => {
                if frame.node_role == NodeRole::Sensor && origin_id == NodeRole::Sensor.node_id() {
                    let now_ms: u64 = self.node.gateway_time_ms(local_time_ms);
                    self.relay_heartbeat.record_sensor_seen(now_ms);
                }
                if alarm {
                    let ack = self.node.make_ack(
                        frame.src_id,
                        frame.seq,
                        frame.frame_type,
                        local_time_ms,
                    )?;
                    self.pending_alarm_forward = Some(frame.clone());
                    let mut frames: Vec<Frame> = Vec::new();
                    assert(views(frames@) =~= Seq::<FrameView>::empty());
                    push_frame(&mut frames, ack);
                    let report = FrameReport::AlarmQueued {
                        origin_id,
                        origin_seq,
                        temp_centi_c,
                        humidity_centi_percent,
                    };
                    Ok(FrameOutcome { frames, report })
                } else {
                    self.relay_forward.remember(frame);
                    Ok(
                        quiet_outcome(
                            FrameReport::DataBuffered {
                                origin_id,
                                origin_seq,
                                temp_centi_c,
                                humidity_centi_percent,
                            },
                        ),
                    )
                }
            },
            FrameAction::Joined { parent_id, hop, slot_id } => Ok(
                quiet_outcome(FrameReport::Joined { parent_id, hop, slot_id }),
            ),
            FrameAction::Ack { acked_seq, acked_type } => Ok(
                self.note_ack(acked_seq, acked_type),
            ),
            FrameAction::Ignore => Ok(quiet_outcome(FrameReport::Nothing)),
        }
    }

    /// Act as the sensor on a frame that was applied.
    fn act_as_sensor(&mut self, action: FrameAction) -> (outcome: FrameOutcome)
        ensures
            views(outcome.frames@) == old(self)@.sensor_step(action).sends,
            outcome.report == old(self)@.sensor_step(action).report,
            final(self)@ == old(self)@.sensor_step(action).state,
    {
        match action {
            FrameAction::Joined { parent_id, hop, slot_id } => quiet_outcome(
                FrameReport::Joined { parent_id, hop, slot_id },
            ),
            FrameAction::Synced { sync_seq, offset_ms } => quiet_outcome(
                FrameReport::Synced { sync_seq, offset_ms },
            ),
            FrameAction::Ack { acked_seq, acked_type } => self.note_ack(acked_seq, acked_type),
            _ => quiet_outcome(FrameReport::Nothing),
        }
    }

    /// Take note of an ACK.
    fn note_ack(&mut self, acked_seq: u16, acked_type: FrameType) -> (outcome: FrameOutcome)
        ensures
            views(outcome.frames@) == Seq::<FrameView>::empty(),
            outcome.report == old(self)@.ack_step(acked_seq, acked_type).report,
            final(self)@ == old(self)@.ack_step(acked_seq, acked_type).state,
    {
        let cleared = self.pending_ack.clear_if_matches(acked_seq, acked_type);
        quiet_outcome(FrameReport::Acked { acked_seq, acked_type, cleared })
    }
}

} // verus!
