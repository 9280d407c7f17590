//! What the core task guarantees over time and across nodes.

use vstd::prelude::*;

use crate::alarm::{AlarmTransition, EnvironmentSample};
use crate::core_state::{
    CoreEvent, CoreState, FrameReport, TimerReport, HELLO_RETRY_INTERVAL_MS,
    MAX_FORWARD_PER_SLOT, STATISTICS_PERIOD_MS,
};
use crate::demo::{NetworkPhase, NodeState};
use crate::demo_log::BuzzerAction;
use crate::pending::PendingView;
use crate::protocol::{FrameType, FrameView};
use crate::role::{NodeRole, BROADCAST_ID, GATEWAY_ID};
use crate::{core_state, demo, demo_laws, payload, relay, tdma_laws};

verus! {

/// A core is valid from the start, and has nothing that waits for an ACK.
pub proof fn law_core_starts_valid(role: NodeRole, local_time_ms: u64)
    ensures
        CoreState::initial(role, local_time_ms).is_valid(),
        CoreState::initial(role, local_time_ms).started().is_valid(),
        CoreState::initial(role, local_time_ms).started().pending.frame is None,
{
}

/// A core stays valid, whatever frames it receives.
pub proof fn law_frames_keep_core_valid(core: CoreState, frame: FrameView, local_time_ms: u64)
    requires
        core.is_valid(),
    ensures
        core.frame_step(frame, local_time_ms).state.is_valid(),
        core.frame_step(frame, local_time_ms).state.node.role == core.node.role,
{
    demo_laws::law_node_stays_valid(core.node.role, core.node, frame, local_time_ms);
}

/// A core stays valid whenever its timer fires, and whatever its sensor reports.
pub proof fn law_time_keeps_core_valid(
    core: CoreState,
    fresh: Option<EnvironmentSample>,
    transition: AlarmTransition,
    local_time_ms: u64,
)
    requires
        core.is_valid(),
    ensures
        core.timer_step(local_time_ms).state.is_valid(),
        core.timer_step(local_time_ms).state.node.role == core.node.role,
        core.with_sample(fresh).is_valid(),
        core.after_transition(transition).is_valid(),
{
    lemma_forwarding(core.node, core.pending, core.due_readings(), local_time_ms);
}

/// Passing on frames one after the other: each keeps its type and payload and
/// gets a sequence number of its own, and the node stays valid.
proof fn lemma_forwarding(
    node: NodeState,
    pending: PendingView,
    received: Seq<FrameView>,
    local_time_ms: u64,
)
    ensures
        ({
            let (after, waiting, sends) = core_state::forwarding(
                node,
                pending,
                received,
                local_time_ms,
            );
            &&& after == NodeState { seq: after.seq, ..node }
            &&& after.seq == (node.seq + received.len()) % 0x1_0000
            &&& pending.is_valid() ==> waiting.is_valid()
            &&& sends.len() == received.len()
            &&& forall|i: int|
                #![trigger sends[i]]
                0 <= i < sends.len() ==> sends[i] == node.outgoing(
                    GATEWAY_ID,
                    received[i].frame_type,
                    ((node.seq + i + 1) % 0x1_0000) as u16,
                    local_time_ms,
                    received[i].payload,
                )
            &&& (forall|i: int|
                0 <= i < received.len() ==> (#[trigger] received[i]).frame_type
                    != FrameType::Alarm) ==> waiting == pending
        }),
    decreases received.len(),
{
    if received.len() > 0 {
        lemma_forwarding(node, pending, received.drop_last(), local_time_ms);
    }
}

/// A node that follows the schedule sends on its own only in active windows: in
/// the guard of a slot its timer changes nothing and sends nothing.
pub proof fn law_guard_is_silent(core: CoreState, local_time_ms: u64)
    requires
        core.follows_schedule(),
        !core.node.schedule.is_active_window(core.node.gateway_time_ms(local_time_ms)),
    ensures
        core.timer_step(local_time_ms) == core.idle(),
{
}

/// A core that is valid stays so, whatever happens to it.
pub proof fn law_events_keep_core_valid(core: CoreState, events: Seq<CoreEvent>)
    requires
        core.is_valid(),
    ensures
        core.after_events(events).is_valid(),
        core.after_events(events).node.role == core.node.role,
    decreases events.len(),
{
    reveal(CoreState::after_event);
    if events.len() > 0 {
        law_events_keep_core_valid(core, events.drop_last());
        let before = core.after_events(events.drop_last());
        match events.last() {
            CoreEvent::Frame { frame, local_time_ms } => {
                law_frames_keep_core_valid(before, frame, local_time_ms);
            },
            CoreEvent::Timer { local_time_ms } => {
                law_time_keeps_core_valid(
                    before,
                    None,
                    AlarmTransition::Unchanged,
                    local_time_ms,
                );
            },
            CoreEvent::Sample { .. } => {},
            CoreEvent::Alarm { .. } => {},
            CoreEvent::Statistics { .. } => {},
        }
    }
}

/// The number of the slot at a local time, as the core sees it.
pub open spec fn slot_seen(core: CoreState, local_time_ms: u64) -> u8 {
    core.node.schedule.slot_at(core.node.gateway_time_ms(local_time_ms))
}

/// The node has acted in `slot` and is done with it.
spec fn is_done_with(core: CoreState, slot: u8) -> bool {
    core.last_tx_slot == Some(slot) && (core.node.role == NodeRole::Gateway || core.node.phase
        == NetworkPhase::Joined)
}

/// A node that is done with a slot stays so with an event, if that is not the
/// timer firing in another slot.
proof fn lemma_event_keeps_done(core: CoreState, event: CoreEvent, slot: u8)
    requires
        is_done_with(core, slot),
        event matches CoreEvent::Timer { local_time_ms } ==> slot_seen(core, local_time_ms)
            == slot,
    ensures
        is_done_with(core.after_event(event), slot),
{
    reveal(CoreState::after_event);
}

/// A node that is done with a slot stays so, as long as its timer fires in that
/// slot only.
proof fn lemma_stays_done(core: CoreState, events: Seq<CoreEvent>, slot: u8)
    requires
        is_done_with(core, slot),
        forall|i: int|
            0 <= i < events.len() ==> (#[trigger] events[i] matches CoreEvent::Timer {
                local_time_ms,
            } ==> slot_seen(core.after_events(events.take(i)), local_time_ms) == slot),
    ensures
        is_done_with(core.after_events(events), slot),
    decreases events.len(),
{
    if events.len() > 0 {
        let earlier = events.drop_last();
        assert forall|i: int| 0 <= i < earlier.len() implies (#[trigger] earlier[i] matches CoreEvent::Timer {
            local_time_ms,
        } ==> slot_seen(core.after_events(earlier.take(i)), local_time_ms) == slot) by {
            assert(events[i] == earlier[i]);
            assert(earlier.take(i) =~= events.take(i));
        }
        lemma_stays_done(core, earlier, slot);
        assert(events.take(events.len() - 1) =~= earlier);
        assert(events[events.len() - 1] == events.last());
        lemma_event_keeps_done(core.after_events(earlier), events.last(), slot);
    }
}

/// A node acts once per slot: whatever happens after it has acted, be it frames,
/// samples or alarms, and however often its timer fires, as long as the timer
/// finds the node in the same slot it does nothing more.
pub proof fn law_one_action_per_slot(
    core: CoreState,
    first_ms: u64,
    events: Seq<CoreEvent>,
    again_ms: u64,
)
    requires
        core.follows_schedule(),
        core.due_slot(first_ms) is Some,
        ({
            let slot = core.due_slot(first_ms)->Some_0;
            let after = core.timer_step(first_ms).state;
            &&& forall|i: int|
                0 <= i < events.len() ==> (#[trigger] events[i] matches CoreEvent::Timer {
                    local_time_ms,
                } ==> slot_seen(after.after_events(events.take(i)), local_time_ms) == slot)
            &&& slot_seen(after.after_events(events), again_ms) == slot
        }),
    ensures
        ({
            let later = core.timer_step(first_ms).state.after_events(events);
            later.timer_step(again_ms) == later.idle()
        }),
{
    lemma_forwarding(core.node, core.pending, core.due_readings(), first_ms);
    lemma_stays_done(
        core.timer_step(first_ms).state,
        events,
        core.due_slot(first_ms)->Some_0,
    );
}

/// A node that follows the schedule does not wait exactly when there is a slot to
/// act in.
pub proof fn law_no_wait_exactly_when_due(core: CoreState, local_time_ms: u64)
    requires
        core.follows_schedule(),
        core.node.schedule.divides_time(),
    ensures
        core.wait_ms(local_time_ms) == 0 <==> core.due_slot(local_time_ms) is Some,
{
    let now_ms = core.node.gateway_time_ms(local_time_ms);
    let m = core.node.schedule.slot_ms as int;
    vstd::arithmetic::div_mod::lemma_mod_bound(
        core.node.schedule.superframe_elapsed(now_ms as int),
        m,
    );
}

/// Waiting in the leading guard of a slot ends where the slot's window opens, and
/// any other wait ends where a slot starts.
pub proof fn law_wait_ends_on_time(core: CoreState, local_time_ms: u64)
    requires
        core.follows_schedule(),
        core.node.schedule.is_regular(),
        core.node.schedule.guard_before_ms < core.node.schedule.slot_ms,
        core.wait_ms(local_time_ms) > 0,
        local_time_ms + core.wait_ms(local_time_ms) <= u64::MAX,
        0 <= local_time_ms + core.node.sync.offset_ms,
        local_time_ms + core.wait_ms(local_time_ms) + core.node.sync.offset_ms <= u64::MAX,
    ensures
        ({
            let schedule = core.node.schedule;
            let now_ms = core.node.gateway_time_ms(local_time_ms);
            let later_ms = core.node.gateway_time_ms(
                (local_time_ms + core.wait_ms(local_time_ms)) as u64,
            );
            if core.last_tx_slot != Some(schedule.slot_at(now_ms)) && schedule.slot_elapsed_ms(
                now_ms,
            ) < schedule.guard_before_ms {
                schedule.slot_at(later_ms) == schedule.slot_at(now_ms) && schedule.slot_elapsed_ms(
                    later_ms,
                ) == schedule.guard_before_ms
            } else {
                schedule.slot_index(later_ms) == (schedule.slot_index(now_ms) + 1)
                    % schedule.slots() && schedule.slot_elapsed_ms(later_ms) == 0
            }
        }),
{
    let schedule = core.node.schedule;
    let now_ms = core.node.gateway_time_ms(local_time_ms);
    let wait = core.wait_ms(local_time_ms);
    assert(core.node.gateway_time_ms((local_time_ms + wait) as u64) == now_ms + wait);
    tdma_laws::law_time_divides_into_slots(schedule, now_ms);
    if core.last_tx_slot != Some(schedule.slot_at(now_ms)) && schedule.slot_elapsed_ms(now_ms)
        < schedule.guard_before_ms {
        tdma_laws::law_time_stays_in_slot(schedule, now_ms, wait);
    } else {
        tdma_laws::law_next_slot_starts_after_delay(schedule, now_ms);
    }
}

/// Before its clock is synced and it has joined, a node sends nothing on its own
/// but HELLO, and that only while it looks for a parent and no sooner than the
/// retry interval after the last one.
pub proof fn law_only_hello_before_joining(core: CoreState, local_time_ms: u64)
    requires
        !core.follows_schedule(),
    ensures
        ({
            let step = core.timer_step(local_time_ms);
            step.sends.len() > 0 ==> step.sends == seq![core.node.hello(local_time_ms)]
                && core.node.phase == NetworkPhase::Searching && local_time_ms - core.last_hello_ms
                >= HELLO_RETRY_INTERVAL_MS
        }),
{
}

/// Of frames that the relay passes on, each that waits for its ACK afterwards was
/// waiting before, or is an ALARM that was sent with the time of passing on.
proof fn lemma_forwarded_alarm_waits(
    node: NodeState,
    pending: PendingView,
    received: Seq<FrameView>,
    local_time_ms: u64,
)
    ensures
        ({
            let waiting = core_state::forwarding(node, pending, received, local_time_ms).1;
            waiting.frame == pending.frame || (waiting.frame matches Some(frame)
                && frame.frame_type == FrameType::Alarm && frame.node_role == node.role
                && frame.gateway_time_ms == node.gateway_time_ms(local_time_ms))
        }),
    decreases received.len(),
{
    if received.len() > 0 {
        lemma_forwarded_alarm_waits(node, pending, received.drop_last(), local_time_ms);
        lemma_forwarding(node, pending, received.drop_last(), local_time_ms);
    }
}

/// An event that leaves the schedule alone leaves a waiting ALARM in a slot of its
/// sender.
proof fn lemma_event_keeps_wait_in_slot(core: CoreState, event: CoreEvent)
    requires
        core.is_valid(),
        core.waits_in_own_slot(),
        core.after_event(event).node.schedule == core.node.schedule,
    ensures
        core.after_event(event).waits_in_own_slot(),
{
    reveal(CoreState::after_event);
    if let CoreEvent::Timer { local_time_ms } = event {
        lemma_forwarded_alarm_waits(
            core.node,
            core.pending,
            core.due_readings(),
            local_time_ms,
        );
        lemma_forwarding(core.node, core.pending, core.due_readings(), local_time_ms);
    }
}

/// From a state in which nothing waits for an ACK, or an ALARM that was sent in a
/// slot of its sender, a waiting ALARM is always one that was sent in a slot of
/// its sender, as long as the schedule stays as it is.
pub proof fn law_waiting_alarm_was_sent_in_slot(core: CoreState, events: Seq<CoreEvent>)
    requires
        core.is_valid(),
        core.waits_in_own_slot(),
        forall|i: int|
            0 <= i <= events.len() ==> (#[trigger] core.after_events(
                events.take(i),
            )).node.schedule == core.node.schedule,
    ensures
        core.after_events(events).waits_in_own_slot(),
    decreases events.len(),
{
    if events.len() > 0 {
        let earlier = events.drop_last();
        assert forall|i: int| 0 <= i <= earlier.len() implies (#[trigger] core.after_events(
            earlier.take(i),
        )).node.schedule == core.node.schedule by {
            assert(earlier.take(i) =~= events.take(i));
        }
        law_waiting_alarm_was_sent_in_slot(core, earlier);
        law_events_keep_core_valid(core, earlier);
        assert(earlier.take(earlier.len() as int) =~= earlier);
        assert(events.take(events.len() as int) =~= events);
        assert(core.after_events(earlier.take(earlier.len() as int)).node.schedule
            == core.node.schedule);
        assert(core.after_events(events.take(events.len() as int)).node.schedule
            == core.node.schedule);
        lemma_event_keeps_wait_in_slot(core.after_events(earlier), events.last());
    }
}

/// Whatever a valid core sends in its slots, for the first time or again, is
/// accepted by every node with the same schedule, as far as slots go. An ALARM is
/// sent again with its first time, so that it counts for the slot in which it was
/// sent first.
pub proof fn law_slots_are_kept(core: CoreState, receiver: NodeState, local_time_ms: u64, i: int)
    requires
        core.is_valid(),
        core.waits_in_own_slot(),
        core.follows_schedule(),
        receiver.schedule == core.node.schedule,
        0 <= i < core.timer_step(local_time_ms).sends.len(),
    ensures
        receiver.accepts_slot_of(core.timer_step(local_time_ms).sends[i]),
{
    lemma_forwarding(core.node, core.pending, core.due_readings(), local_time_ms);
    lemma_due_readings(core);
}

/// The readings that the relay passes on are readings.
proof fn lemma_due_readings(core: CoreState)
    requires
        core.is_valid(),
    ensures
        forall|i: int|
            0 <= i < core.due_readings().len() ==> CoreState::is_reading(
                #[trigger] core.due_readings()[i],
                FrameType::Data,
            ) || CoreState::is_reading(core.due_readings()[i], FrameType::Alarm),
{
    let alarms = core_state::one_or_none(core.alarm_forward);
    assert forall|i: int| 0 <= i < core.due_readings().len() implies CoreState::is_reading(
        #[trigger] core.due_readings()[i],
        FrameType::Data,
    ) || CoreState::is_reading(core.due_readings()[i], FrameType::Alarm) by {
        if i >= alarms.len() {
            assert(core.due_readings()[i] == core.buffered[i - alarms.len()]);
        }
    }
}

/// The topology is a line: the gateway admits the relay only, the relay admits
/// the sensor only, and the sensor admits nobody.
pub proof fn law_topology_is_a_line(
    core: CoreState,
    frame: FrameView,
    local_time_ms: u64,
    i: int,
)
    requires
        0 <= i < core.frame_step(frame, local_time_ms).sends.len(),
        core.frame_step(frame, local_time_ms).sends[i].frame_type == FrameType::JoinAck,
    ensures
        frame.frame_type == FrameType::Hello,
        core.node.role == NodeRole::Gateway ==> frame.node_role == NodeRole::Relay,
        core.node.role == NodeRole::Relay ==> frame.node_role == NodeRole::Sensor,
        core.node.role != NodeRole::Sensor,
{
}

/// The gateway answers the relay's HELLO, and the relay answers the sensor's, in
/// such a way that the sender joins with its role's parent, hop and slot.
pub proof fn law_hello_leads_to_joining(
    parent: CoreState,
    child: CoreState,
    hello_ms: u64,
    answer_ms: u64,
    joined_ms: u64,
)
    requires
        parent.node.role == NodeRole::Gateway && child.node.role == NodeRole::Relay
            || parent.node.role == NodeRole::Relay && child.node.role == NodeRole::Sensor,
    ensures
        ({
            let hello = child.node.hello(hello_ms);
            let step = parent.frame_step(hello, answer_ms);
            let joined = child.frame_step(step.sends[0], joined_ms);
            &&& step.report == FrameReport::ChildAdmitted
            &&& joined.state.node.phase == NetworkPhase::Joined
            &&& joined.state.node.parent_id == Some(parent.node.role.node_id())
            &&& joined.state.node.parent_id == child.node.role.parent_id()
            &&& joined.state.node.hop == parent.node.child_hop()
            &&& joined.state.node.slot_id == child.node.role.default_slot()
        }),
{
    demo_laws::law_join_ack_places_child(parent.node, child.node, answer_ms, joined_ms);
}

/// The relay tells the gateway of a sensor that it admits, and the gateway notes
/// it.
pub proof fn law_sensor_is_announced(
    relay_core: CoreState,
    gateway: CoreState,
    sensor: NodeState,
    hello_ms: u64,
    relay_ms: u64,
    gateway_ms: u64,
)
    requires
        relay_core.node.role == NodeRole::Relay,
        relay_core.node.hop > 0,
        gateway.node.role == NodeRole::Gateway,
        sensor.role == NodeRole::Sensor,
    ensures
        ({
            let step = relay_core.frame_step(sensor.hello(hello_ms), relay_ms);
            &&& step.sends.len() == 2
            &&& gateway.frame_step(step.sends[1], gateway_ms).report == FrameReport::SensorAnnounced
        }),
{
}

/// DATA and HEARTBEAT are never acknowledged.
pub proof fn law_best_effort_frames_get_no_ack(
    core: CoreState,
    frame: FrameView,
    local_time_ms: u64,
)
    requires
        frame.frame_type == FrameType::Data || frame.frame_type == FrameType::Heartbeat,
    ensures
        core.frame_step(frame, local_time_ms).sends.len() == 0,
{
}

/// An ALARM that the relay or the gateway accepts is acknowledged to its sender at
/// once, and the ACK ends the sender's retries.
pub proof fn law_alarm_hop_is_acknowledged(
    receiver: CoreState,
    sender: CoreState,
    frame: FrameView,
    received_ms: u64,
    acked_ms: u64,
)
    requires
        frame.frame_type == FrameType::Alarm,
        receiver.node.role != NodeRole::Sensor,
        sender.node.role != NodeRole::Gateway,
        frame.src_id == sender.node.role.node_id(),
        sender.pending.frame == Some(frame),
        receiver.node.accepts_slot_of(frame),
        receiver.node.reaction(frame, received_ms) is Data,
    ensures
        ({
            let step = receiver.frame_step(frame, received_ms);
            let acked = sender.frame_step(step.sends[0], acked_ms);
            &&& step.sends.len() == 1
            &&& acked.state.pending.frame is None
            &&& acked.report == FrameReport::Acked {
                acked_seq: frame.seq,
                acked_type: FrameType::Alarm,
                cleared: true,
            }
        }),
{
    let node = receiver.node.after_frame(frame, received_ms);
    demo_laws::law_ack_is_understood(
        node,
        sender.node,
        frame.seq,
        frame.frame_type,
        received_ms,
        acked_ms,
    );
}

/// What the relay passes on in its slot: an ALARM that waits goes first, then the
/// oldest buffered DATA, at most as many as fit into a slot; every frame goes to
/// the gateway with its type and payload unchanged and a sequence number of its
/// own.
pub proof fn law_relay_passes_on_readings(core: CoreState, local_time_ms: u64, i: int)
    requires
        core.is_valid(),
        0 <= i < core.due_readings().len(),
    ensures
        ({
            let step = core.forward_step(local_time_ms);
            let sent = step.sends[i];
            let received = core.due_readings()[i];
            &&& step.sends.len() == core.due_readings().len()
            &&& step.sends.len() <= MAX_FORWARD_PER_SLOT + 1
            &&& core.alarm_forward is Some ==> step.sends[0].frame_type == FrameType::Alarm
            &&& sent.frame_type == received.frame_type
            &&& sent.payload == received.payload
            &&& sent.dst_id == GATEWAY_ID
            &&& sent.src_id == core.node.role.node_id()
            &&& sent.seq == (core.node.seq + i + 1) % 0x1_0000
            &&& step.state.alarm_forward is None
            &&& step.state.buffered == core.buffered.skip(core.forward_count() as int)
        }),
{
    lemma_forwarding(core.node, core.pending, core.due_readings(), local_time_ms);
}

/// The relay keeps every DATA that it accepts, behind those that already wait.
pub proof fn law_relay_keeps_data(core: CoreState, frame: FrameView, local_time_ms: u64)
    requires
        core.node.role == NodeRole::Relay,
        frame.frame_type == FrameType::Data,
        core.node.accepts_slot_of(frame),
        core.node.reaction(frame, local_time_ms) is Data,
    ensures
        ({
            let kept = core.frame_step(frame, local_time_ms).state.buffered;
            &&& kept.len() > 0
            &&& kept.last() == frame
            &&& core.buffered.len() < relay::RELAY_FORWARD_CAPACITY ==> kept
                == core.buffered.push(frame)
        }),
{
}

/// What the relay passes on, the gateway reports with the values that the payload
/// carries, unless it has already heard it.
pub proof fn law_relayed_reading_is_reported(
    core: CoreState,
    gateway: CoreState,
    forwarded_ms: u64,
    gateway_ms: u64,
    i: int,
)
    requires
        core.is_valid(),
        gateway.node.role == NodeRole::Gateway,
        0 <= i < core.due_readings().len(),
        gateway.node.accepts_slot_of(core.forward_step(forwarded_ms).sends[i]),
        !gateway.node.is_repeat(core.forward_step(forwarded_ms).sends[i]),
    ensures
        ({
            let received = core.due_readings()[i];
            let heard = gateway.frame_step(core.forward_step(forwarded_ms).sends[i], gateway_ms);
            &&& heard.report matches FrameReport::ReadingReceived { log }
            &&& payload::read_data(received.payload) == Some(
                (log.origin_id, log.origin_seq, log.temp_centi_c, log.humidity_centi_percent),
            )
            &&& log.alarm == (received.frame_type == FrameType::Alarm)
            &&& log.via_id == core.node.role.node_id()
        }),
{
    lemma_forwarding(core.node, core.pending, core.due_readings(), forwarded_ms);
    lemma_due_readings(core);
    let received = core.due_readings()[i];
    assert(CoreState::is_reading(received, FrameType::Data) || CoreState::is_reading(
        received,
        FrameType::Alarm,
    ));
}

/// An ALARM is sent again as it was sent first.
pub proof fn law_retry_repeats_the_frame(core: CoreState, local_time_ms: u64)
    requires
        core.timer_step(local_time_ms).report is AlarmRetried,
    ensures
        core.pending.frame is Some,
        core.timer_step(local_time_ms).sends == seq![core.pending.frame->Some_0],
        core.timer_step(local_time_ms).state.pending.frame == core.pending.frame,
{
}

/// DATA that is passed on does not wait for an ACK.
pub proof fn law_relayed_data_does_not_wait(core: CoreState, local_time_ms: u64)
    requires
        core.is_valid(),
        core.alarm_forward is None,
    ensures
        core.forward_step(local_time_ms).state.pending == core.pending,
{
    lemma_forwarding(core.node, core.pending, core.due_readings(), local_time_ms);
    assert forall|i: int| 0 <= i < core.due_readings().len() implies (
    #[trigger] core.due_readings()[i]).frame_type != FrameType::Alarm by {
        assert(core.due_readings()[i] == core.buffered[i]);
    }
}

/// A sensor's ALARM rings the gateway's buzzer: the relay keeps it, passes it on
/// in its slot and waits for the gateway's ACK, and the gateway turns the buzzer
/// on and reports the values that the sensor measured.
pub proof fn law_alarm_rings_buzzer(
    sensor: NodeState,
    relay_core: CoreState,
    gateway: CoreState,
    temp_centi_c: i16,
    humidity_centi_percent: u16,
    sent_ms: u64,
    relay_ms: u64,
    forwarded_ms: u64,
    gateway_ms: u64,
)
    requires
        relay_core.is_valid(),
        relay_core.node.role == NodeRole::Relay,
        gateway.node.role == NodeRole::Gateway,
        sensor.role == NodeRole::Sensor,
        sensor.uplink() == NodeRole::Relay.node_id(),
        ({
            let frame = sensor.reading(true, sent_ms, temp_centi_c, humidity_centi_percent);
            relay_core.node.accepts_slot_of(frame) && !relay_core.node.is_repeat(frame)
        }),
        ({
            let frame = sensor.reading(true, sent_ms, temp_centi_c, humidity_centi_percent);
            let relayed = relay_core.frame_step(frame, relay_ms).state.forward_step(
                forwarded_ms,
            ).sends[0];
            gateway.node.accepts_slot_of(relayed) && !gateway.node.is_repeat(relayed)
        }),
    ensures
        ({
            let frame = sensor.reading(true, sent_ms, temp_centi_c, humidity_centi_percent);
            let step = relay_core.frame_step(frame, relay_ms).state.forward_step(forwarded_ms);
            let relayed = step.sends[0];
            let heard = gateway.frame_step(relayed, gateway_ms);
            &&& step.state.pending.frame == Some(relayed)
            &&& heard.state.gateway_alarm_active
            &&& heard.report matches FrameReport::ReadingReceived { log }
            &&& log.buzzer_action == BuzzerAction::On
            &&& log.alarm
            &&& log.origin_id == NodeRole::Sensor.node_id()
            &&& log.origin_seq == demo::following(sensor.data_seq)
            &&& log.temp_centi_c == temp_centi_c
            &&& log.humidity_centi_percent == humidity_centi_percent
        }),
{
    let frame = sensor.reading(true, sent_ms, temp_centi_c, humidity_centi_percent);
    let queued = relay_core.frame_step(frame, relay_ms).state;
    demo_laws::law_reading_says_what_was_measured(
        sensor,
        true,
        sent_ms,
        temp_centi_c,
        humidity_centi_percent,
    );
    law_frames_keep_core_valid(relay_core, frame, relay_ms);
    let due = queued.due_readings();
    assert(due[0] == frame);
    lemma_forwarding(queued.node, queued.pending, due, forwarded_ms);
    lemma_last_alarm_waits(queued.node, queued.pending, due, forwarded_ms);
}

/// Of frames that are passed on, an ALARM at the front is the one that waits for
/// its ACK, if no other ALARM follows.
proof fn lemma_last_alarm_waits(
    node: NodeState,
    pending: PendingView,
    received: Seq<FrameView>,
    local_time_ms: u64,
)
    requires
        received.len() > 0,
        received[0].frame_type == FrameType::Alarm,
        forall|i: int|
            0 < i < received.len() ==> (#[trigger] received[i]).frame_type != FrameType::Alarm,
    ensures
        ({
            let (_, waiting, sends) = core_state::forwarding(
                node,
                pending,
                received,
                local_time_ms,
            );
            &&& waiting.frame == Some(sends[0])
            &&& waiting.attempts == 1
            &&& waiting.last_sent_ms == local_time_ms
        }),
    decreases received.len(),
{
    if received.len() > 1 {
        lemma_last_alarm_waits(node, pending, received.drop_last(), local_time_ms);
        lemma_forwarding(node, pending, received.drop_last(), local_time_ms);
    } else {
        assert(received.drop_last() =~= Seq::<FrameView>::empty());
        reveal_with_fuel(core_state::forwarding, 2);
    }
}

/// The first DATA that the gateway accepts after an ALARM turns the buzzer off,
/// and later DATA leaves it as it is.
pub proof fn law_data_silences_buzzer(gateway: CoreState, frame: FrameView, local_time_ms: u64)
    requires
        gateway.node.role == NodeRole::Gateway,
        frame.frame_type == FrameType::Data,
        gateway.node.accepts_slot_of(frame),
        gateway.node.reaction(frame, local_time_ms) is Data,
    ensures
        ({
            let heard = gateway.frame_step(frame, local_time_ms);
            &&& !heard.state.gateway_alarm_active
            &&& heard.report matches FrameReport::ReadingReceived { log }
            &&& log.buzzer_action == (if gateway.gateway_alarm_active {
                BuzzerAction::Off
            } else {
                BuzzerAction::Unchanged
            })
        }),
{
}

/// While its alarm is on, the sensor sends ALARM in its slot, and otherwise DATA;
/// when the alarm is over, no ALARM of it waits any more.
pub proof fn law_sensor_reports_its_alarm(core: CoreState, local_time_ms: u64)
    requires
        core.is_valid(),
    ensures
        core.after_transition(AlarmTransition::Raised).reading_step(
            local_time_ms,
        ).sends[0].frame_type == FrameType::Alarm,
        core.after_transition(AlarmTransition::Cleared).reading_step(
            local_time_ms,
        ).sends[0].frame_type == FrameType::Data,
        core.after_transition(AlarmTransition::Cleared).pending.frame is None,
{
}

/// The gateway's sync sequence number counts its broadcasts: each SYNC carries the
/// next number, and nothing else that the gateway does changes it.
pub proof fn law_sync_seq_counts_broadcasts(
    gateway: CoreState,
    frame: FrameView,
    local_time_ms: u64,
)
    requires
        gateway.is_valid(),
        gateway.node.role == NodeRole::Gateway,
    ensures
        gateway.frame_step(frame, local_time_ms).state.node.sync_seq == gateway.node.sync_seq,
        ({
            let step = gateway.timer_step(local_time_ms);
            match step.report {
                TimerReport::SyncBroadcast { sync_seq, .. } => {
                    &&& sync_seq == demo::following(gateway.node.sync_seq)
                    &&& step.state.node.sync_seq == sync_seq
                    &&& payload::read_sync(step.sends[0].payload) is Some
                    &&& payload::read_sync(step.sends[0].payload)->Some_0.0 == sync_seq
                },
                _ => step.state.node.sync_seq == gateway.node.sync_seq && step.sends.len() == 0,
            }
        }),
{
    payload::law_sync_payload_read_back(
        demo::following(gateway.node.sync_seq),
        gateway.node.schedule.schedule_version,
        gateway.node.schedule.superframe_ms,
        gateway.node.schedule.slot_ms,
        gateway.node.schedule.guard_before_ms,
        gateway.node.schedule.active_ms,
    );
}

/// The relay keeps a SYNC that it accepts until its control slot, and then passes
/// it on, once, to all.
pub proof fn law_sync_waits_for_control_slot(
    core: CoreState,
    frame: FrameView,
    received_ms: u64,
    forwarded_ms: u64,
)
    requires
        core.node.role == NodeRole::Relay,
        core.node.reaction(frame, received_ms) is Synced,
    ensures
        ({
            let queued = core.frame_step(frame, received_ms);
            let step = queued.state.sync_forward_step(forwarded_ms);
            &&& queued.sends.len() == 0
            &&& step.sends.len() == 1
            &&& step.sends[0].frame_type == frame.frame_type
            &&& step.sends[0].payload == frame.payload
            &&& step.sends[0].dst_id == BROADCAST_ID
            &&& step.state.sync_forward_step(forwarded_ms).sends.len() == 0
        }),
{
}

/// A frame that was sent outside its sender's slots is counted and otherwise
/// leaves no trace.
pub proof fn law_out_of_slot_frames_are_dropped(
    core: CoreState,
    frame: FrameView,
    local_time_ms: u64,
)
    requires
        !core.node.accepts_slot_of(frame),
    ensures
        ({
            let step = core.frame_step(frame, local_time_ms);
            &&& step.sends.len() == 0
            &&& step.state == CoreState { stats: core.stats.with_slot_violation(), ..core }
        }),
{
}

/// A DATA, ALARM or HEARTBEAT that is heard again changes nothing. An ALARM is
/// acknowledged the first time only.
pub proof fn law_repeated_frames_change_nothing(
    core: CoreState,
    frame: FrameView,
    local_time_ms: u64,
)
    requires
        core.node.is_repeat(frame),
        core.node.is_addressed_by(frame),
        core.node.accepts_slot_of(frame),
    ensures
        core.frame_step(frame, local_time_ms).sends.len() == 0,
        core.frame_step(frame, local_time_ms).state == core,
{
}

/// An ALARM that the node sends and repeats is accepted each time: from the moment
/// when nothing waited, through whatever happened since, every retry is accepted
/// by every node with the node's schedule, while that schedule stays as it is.
pub proof fn law_retries_are_accepted(
    core: CoreState,
    events: Seq<CoreEvent>,
    receiver: NodeState,
    local_time_ms: u64,
)
    requires
        core.is_valid(),
        core.pending.frame is None,
        forall|i: int|
            0 <= i <= events.len() ==> (#[trigger] core.after_events(
                events.take(i),
            )).node.schedule == core.node.schedule,
        receiver.schedule == core.node.schedule,
        core.after_events(events).timer_step(local_time_ms).report is AlarmRetried,
    ensures
        receiver.accepts_slot_of(
            core.after_events(events).timer_step(local_time_ms).sends[0],
        ),
{
    law_events_keep_core_valid(core, events);
    law_waiting_alarm_was_sent_in_slot(core, events);
    assert(events.take(events.len() as int) =~= events);
    assert(core.after_events(events.take(events.len() as int)).node.schedule
        == core.node.schedule);
    law_slots_are_kept(core.after_events(events), receiver, local_time_ms, 0);
}

/// The gateway prints its statistics once per period: after it was asked at one
/// time, they are due at a later time exactly if a new period has begun.
pub proof fn law_statistics_once_per_period(gateway: CoreState, first_ms: u64, later_ms: u64)
    requires
        gateway.node.role == NodeRole::Gateway,
        gateway.statistics_period <= first_ms / STATISTICS_PERIOD_MS,
        first_ms <= later_ms,
    ensures
        gateway.after_statistics(first_ms).statistics_due(later_ms) == (later_ms
            / STATISTICS_PERIOD_MS > first_ms / STATISTICS_PERIOD_MS),
{
}

/// The gateway never waits longer than a slot of a second, so its statistics are
/// at most that late.
pub proof fn law_gateway_wakes_every_second(gateway: CoreState, local_time_ms: u64)
    requires
        gateway.is_valid(),
        gateway.node.role == NodeRole::Gateway,
    ensures
        gateway.wait_ms(local_time_ms) <= 1_000,
{
}

} // verus!
