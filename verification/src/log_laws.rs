//! What the log lines show: each value stands right behind its name.

use vstd::prelude::*;

use crate::alarm::EnvironmentSample;
use crate::core_state::{CoreState, FrameReport, TimerReport};
use crate::demo::NodeState;
use crate::demo_log::{GatewayRxDataLog, GatewayStats};
use crate::liveness::GatewayJoinStatus;
use crate::node_core::AlarmReport;
use crate::protocol::{FrameType, FrameView};
use crate::role::NodeRole;
use crate::tdma::TimeSync;
use crate::{core_log, demo_log, pending, text};

verus! {

/// Somewhere in a text stands a name with a value right behind it.
pub open spec fn shows(all: Seq<char>, name: Seq<char>, value: Seq<char>) -> bool {
    exists|i: int|
        #![trigger all.subrange(i, i + name.len() + value.len())]
        0 <= i && i + name.len() + value.len() <= all.len() && all.subrange(
            i,
            i + name.len() + value.len(),
        ) == name + value
}

/// What a text shows, a longer text shows too.
proof fn lemma_longer_shows(front: Seq<char>, back: Seq<char>, name: Seq<char>, value: Seq<char>)
    ensures
        shows(front, name, value) ==> shows(front + back, name, value),
        shows(back, name, value) ==> shows(front + back, name, value),
{
    let all = front + back;
    if shows(front, name, value) {
        let i = choose|i: int|
            #![trigger front.subrange(i, i + name.len() + value.len())]
            0 <= i && i + name.len() + value.len() <= front.len() && front.subrange(
                i,
                i + name.len() + value.len(),
            ) == name + value;
        assert(all.subrange(i, i + name.len() + value.len()) =~= front.subrange(
            i,
            i + name.len() + value.len(),
        ));
    }
    if shows(back, name, value) {
        let i = choose|i: int|
            #![trigger back.subrange(i, i + name.len() + value.len())]
            0 <= i && i + name.len() + value.len() <= back.len() && back.subrange(
                i,
                i + name.len() + value.len(),
            ) == name + value;
        let j = front.len() + i;
        assert(all.subrange(j, j + name.len() + value.len()) =~= back.subrange(
            i,
            i + name.len() + value.len(),
        ));
    }
}

/// A text that ends with a name and a value shows it.
proof fn lemma_end_shows(front: Seq<char>, name: Seq<char>, value: Seq<char>)
    ensures
        shows(front + name + value, name, value),
        shows(name + value, name, value),
{
    let all = front + name + value;
    let i = front.len() as int;
    assert(all.subrange(i, i + name.len() + value.len()) =~= name + value);
    let end = name + value;
    assert(end.subrange(0int, 0int + name.len() + value.len()) =~= name + value);
}

/// What a text shows that is put together from parts.
proof fn lemma_shows()
    ensures
        forall|front: Seq<char>, back: Seq<char>, name: Seq<char>, value: Seq<char>|
            #![trigger shows(front + back, name, value)]
            shows(front, name, value) || shows(back, name, value) ==> shows(
                front + back,
                name,
                value,
            ),
        forall|front: Seq<char>, name: Seq<char>, value: Seq<char>|
            #![trigger shows(front + name + value, name, value)]
            shows(front + name + value, name, value),
        forall|name: Seq<char>, value: Seq<char>|
            #![trigger shows(name + value, name, value)]
            shows(name + value, name, value),
        forall|front: Seq<char>, name: Seq<char>|
            #![trigger shows(front + name, name, ""@)]
            shows(front + name, name, ""@),
{
    assert forall|front: Seq<char>, back: Seq<char>, name: Seq<char>, value: Seq<char>|
        #![trigger shows(front + back, name, value)]
        shows(front, name, value) || shows(back, name, value) implies shows(
        front + back,
        name,
        value,
    ) by {
        lemma_longer_shows(front, back, name, value);
    }
    assert forall|front: Seq<char>, name: Seq<char>, value: Seq<char>|
        #![trigger shows(front + name + value, name, value)]
        shows(front + name + value, name, value) by {
        lemma_end_shows(front, name, value);
    }
    assert forall|name: Seq<char>, value: Seq<char>|
        #![trigger shows(name + value, name, value)]
        shows(name + value, name, value) by {
        lemma_end_shows(Seq::empty(), name, value);
    }
    assert forall|front: Seq<char>, name: Seq<char>|
        #![trigger shows(front + name, name, ""@)]
        shows(front + name, name, ""@) by {
        reveal_strlit("");
        lemma_end_shows(front, name, ""@);
        assert(front + name + ""@ =~= front + name);
    }
}

/// A node that begins names its first HELLO and the place that it looks for.
pub proof fn law_start_is_logged(node: NodeState, frame: FrameView, bytes: usize)
    ensures
        ({
            let all = core_log::started_lines(node, Some(frame), bytes);
            &&& shows(all, node.role.spec_label(), " searching: send "@)
            &&& shows(all, " searching: send "@, frame.frame_type.spec_label())
            &&& shows(all, " seq="@, text::decimal(frame.seq as nat))
            &&& shows(all, " bytes="@, text::decimal(bytes as nat))
            &&& shows(all, " parent="@, text::optional_id(node.parent_id))
            &&& shows(all, " searching: preferred_parent="@, text::optional_id(node.parent_id))
            &&& shows(all, " hop="@, text::decimal(node.hop as nat))
            &&& shows(all, " slot="@, text::decimal(node.slot_id as nat))
        }),
{
    lemma_shows();
}

/// A HELLO that is repeated is named.
pub proof fn law_hello_is_logged(state: CoreState, frame: FrameView, bytes: usize)
    ensures
        ({
            let all = core_log::timer_lines(state, TimerReport::HelloRetried, Some(frame), bytes);
            &&& shows(all, state.node.role.spec_label(), " searching: retry "@)
            &&& shows(all, " searching: retry "@, frame.frame_type.spec_label())
            &&& shows(all, " seq="@, text::decimal(frame.seq as nat))
            &&& shows(all, " bytes="@, text::decimal(bytes as nat))
        }),
{
    lemma_shows();
}

/// A SYNC that the gateway broadcasts is named, with the schedule in it and who is
/// there.
pub proof fn law_broadcast_is_logged(
    state: CoreState,
    frame: FrameView,
    sync_seq: u16,
    slot: u8,
    status: GatewayJoinStatus,
    silence_buzzer: bool,
    bytes: usize,
)
    ensures
        ({
            let report = TimerReport::SyncBroadcast { sync_seq, slot, status, silence_buzzer };
            let all = core_log::timer_lines(state, report, Some(frame), bytes);
            &&& shows(all, "tx "@, frame.frame_type.spec_label())
            &&& shows(all, " frame_seq="@, text::decimal(frame.seq as nat))
            &&& shows(all, " sync_seq="@, text::decimal(sync_seq as nat))
            &&& shows(
                all,
                " schedule_v="@,
                text::decimal(state.node.schedule.schedule_version as nat),
            )
            &&& shows(all, " active="@, text::decimal(state.node.schedule.active_ms as nat))
            &&& shows(
                all,
                "ms guard_before="@,
                text::decimal(state.node.schedule.guard_before_ms as nat),
            )
            &&& shows(all, "ms gateway_time="@, text::decimal(frame.gateway_time_ms as nat))
            &&& shows(all, " slot="@, text::decimal(slot as nat))
            &&& shows(all, " bytes="@, text::decimal(bytes as nat))
            &&& shows(all, "[JOIN STATUS] gateway_time="@, text::clock(frame.gateway_time_ms))
            &&& shows(all, " relay="@, status.relay.spec_label())
            &&& shows(all, " sensor="@, status.sensor.spec_label())
            &&& shows(all, " last_seen="@, text::last_seen(status.relay_last_seen_ms))
            &&& shows(all, " via=relay last_seen="@, text::last_seen(status.sensor_last_seen_ms))
        }),
{
    lemma_shows();
}

/// An ALARM that is repeated is named, with the number of the attempt.
pub proof fn law_retry_is_logged(state: CoreState, frame: FrameView, attempt: u8, bytes: usize)
    ensures
        ({
            let all = core_log::timer_lines(
                state,
                TimerReport::AlarmRetried { attempt },
                Some(frame),
                bytes,
            );
            &&& shows(all, state.node.role.spec_label(), " retry "@)
            &&& shows(all, " retry "@, frame.frame_type.spec_label())
            &&& shows(all, " seq="@, text::decimal(frame.seq as nat))
            &&& shows(all, " attempt="@, text::decimal(attempt as nat))
            &&& shows(all, " bytes="@, text::decimal(bytes as nat))
        }),
{
    lemma_shows();
}

/// An ALARM that is given up is named, and that it was sent three times.
pub proof fn law_drop_is_logged(
    state: CoreState,
    seq: u16,
    frame_type: FrameType,
    first: Option<FrameView>,
    bytes: usize,
)
    ensures
        ({
            let all = core_log::timer_lines(
                state,
                TimerReport::AlarmDropped { seq, frame_type },
                first,
                bytes,
            );
            &&& shows(all, state.node.role.spec_label(), " drop "@)
            &&& shows(all, " drop "@, frame_type.spec_label())
            &&& shows(all, " seq="@, text::decimal(seq as nat))
            &&& shows(all, " after "@, text::decimal(3 as nat))
        }),
{
    lemma_shows();
}

/// A SYNC that the relay passes on is named, with the relay's clock.
pub proof fn law_forwarded_sync_is_logged(
    state: CoreState,
    first: Option<FrameView>,
    bytes: usize,
)
    ensures
        ({
            let all = core_log::timer_lines(state, TimerReport::SyncForwarded, first, bytes);
            &&& shows(
                all,
                "relay control slot: forward SYNC sync_seq="@,
                text::decimal(state.node.sync.last_sync_seq as nat),
            )
            &&& shows(all, " offset_ms="@, text::signed(state.node.sync.offset_ms as int))
            &&& shows(all, " drift="@, text::signed(state.node.sync.offset_delta_ms as int))
            &&& shows(all, "ms bytes="@, text::decimal(bytes as nat))
        }),
{
    lemma_shows();
}

/// A HEARTBEAT that is sent is named, with the sender's place and clock and who is
/// there.
pub proof fn law_sent_heartbeat_is_logged(
    state: CoreState,
    frame: FrameView,
    heartbeat_slot: u8,
    presence_mask: u8,
    bytes: usize,
)
    ensures
        ({
            let report = TimerReport::HeartbeatSent { heartbeat_slot, presence_mask };
            let all = core_log::timer_lines(state, report, Some(frame), bytes);
            &&& shows(all, state.node.role.spec_label(), " tx HEARTBEAT seq="@)
            &&& shows(all, " tx HEARTBEAT seq="@, text::decimal(frame.seq as nat))
            &&& shows(all, " parent="@, text::optional_id(state.node.parent_id))
            &&& shows(all, " data_slot="@, text::decimal(state.node.slot_id as nat))
            &&& shows(all, " heartbeat_slot="@, text::decimal(heartbeat_slot as nat))
            &&& shows(all, " sync_seq="@, text::decimal(state.node.sync.last_sync_seq as nat))
            &&& shows(all, " presence=0b"@, text::binary(presence_mask as nat, 8))
            &&& shows(all, " offset_ms="@, text::signed(state.node.sync.offset_ms as int))
            &&& shows(all, " drift="@, text::signed(state.node.sync.offset_delta_ms as int))
            &&& shows(all, "ms bytes="@, text::decimal(bytes as nat))
        }),
{
    lemma_shows();
}

/// A reading that the sensor sends is named, with its values.
pub proof fn law_sent_reading_is_logged(
    state: CoreState,
    frame: FrameView,
    sample: EnvironmentSample,
    bytes: usize,
)
    ensures
        ({
            let all = core_log::timer_lines(
                state,
                TimerReport::ReadingSent { sample },
                Some(frame),
                bytes,
            );
            &&& shows(all, "tx "@, frame.frame_type.spec_label())
            &&& shows(all, " seq="@, text::decimal(frame.seq as nat))
            &&& shows(all, " parent="@, text::optional_id(state.node.parent_id))
            &&& shows(all, " "@, text::reading(sample.temp_centi_c, sample.humidity_centi_percent))
            &&& shows(all, " gateway_time="@, text::decimal(frame.gateway_time_ms as nat))
            &&& shows(all, " bytes="@, text::decimal(bytes as nat))
        }),
{
    lemma_shows();
}

/// After its slot the relay says what still waits, and its place and clock.
pub proof fn law_relay_slot_is_logged(state: CoreState, first: Option<FrameView>, bytes: usize)
    ensures
        ({
            let all = core_log::timer_lines(state, TimerReport::ReadingsForwarded, first, bytes);
            &&& shows(
                all,
                "relay slot active: buffered_data="@,
                text::truth(state.buffered.len() > 0),
            )
            &&& shows(all, " pending_ack="@, text::truth(state.pending.frame is Some))
            &&& shows(all, " parent="@, text::optional_id(state.node.parent_id))
            &&& shows(all, " hop="@, text::decimal(state.node.hop as nat))
            &&& shows(all, " sync_seq="@, text::decimal(state.node.sync.last_sync_seq as nat))
            &&& shows(all, " offset_ms="@, text::signed(state.node.sync.offset_ms as int))
            &&& shows(all, " offset_delta="@, text::signed(state.node.sync.offset_delta_ms as int))
        }),
{
    lemma_shows();
}

/// Each reading that the relay passes on is named, with both its numbers.
pub proof fn law_forwarded_alarm_is_logged(frame: FrameView, bytes: usize)
    requires
        frame.frame_type == FrameType::Alarm,
    ensures
        ({
            let all = core_log::sent_lines(TimerReport::ReadingsForwarded, frame, bytes);
            &&& shows(
                all,
                "relay slot tx ALARM origin_seq="@,
                text::decimal(pending::origin_seq_of(frame) as nat),
            )
            &&& shows(all, " relay_seq="@, text::decimal(frame.seq as nat))
            &&& shows(all, " ack_required=true bytes="@, text::decimal(bytes as nat))
        }),
{
    lemma_shows();
}

/// Each DATA that the relay passes on is named, with both its numbers.
pub proof fn law_forwarded_data_is_logged(frame: FrameView, bytes: usize)
    requires
        frame.frame_type == FrameType::Data,
    ensures
        ({
            let all = core_log::sent_lines(TimerReport::ReadingsForwarded, frame, bytes);
            &&& shows(all, "relay slot tx buffered "@, frame.frame_type.spec_label())
            &&& shows(all, " origin_seq="@, text::decimal(pending::origin_seq_of(frame) as nat))
            &&& shows(all, " relay_seq="@, text::decimal(frame.seq as nat))
            &&& shows(all, " ack_required="@, text::truth(false))
            &&& shows(all, " bytes="@, text::decimal(bytes as nat))
        }),
{
    lemma_shows();
}

/// A raised alarm is named with the sample and the thresholds of 30 degrees and 80
/// percent.
pub proof fn law_raised_alarm_is_logged(sample: EnvironmentSample)
    ensures
        ({
            let all = core_log::alarm_lines(AlarmReport::Raised { sample });
            &&& shows(
                all,
                "sensor alarm raised: "@,
                text::reading(sample.temp_centi_c, sample.humidity_centi_percent),
            )
            &&& shows(all, " thresholds="@, text::signed(3_000 as int))
            &&& shows(all, "cC/"@, text::decimal(8_000 as nat))
        }),
{
    lemma_shows();
}

/// A cleared alarm is named with the sample and the thresholds of 29 degrees and 75
/// percent.
pub proof fn law_cleared_alarm_is_logged(sample: EnvironmentSample, cancelled: bool)
    ensures
        ({
            let all = core_log::alarm_lines(AlarmReport::Cleared { sample, cancelled });
            &&& shows(
                all,
                "sensor alarm cleared: "@,
                text::reading(sample.temp_centi_c, sample.humidity_centi_percent),
            )
            &&& shows(all, " clear_thresholds="@, text::signed(2_900 as int))
            &&& shows(all, "cC/"@, text::decimal(7_500 as nat))
        }),
{
    lemma_shows();
}

/// A frame that was dropped for its slot is named, with the slot.
pub proof fn law_dropped_frame_is_logged(frame: FrameView, claimed_slot: u8)
    ensures
        ({
            let all = core_log::out_of_slot_warning(frame, claimed_slot);
            &&& shows(all, "drop out-of-slot "@, frame.frame_type.spec_label())
            &&& shows(all, " from "@, text::decimal(frame.src_id as nat))
            &&& shows(all, " claimed_slot="@, text::decimal(claimed_slot as nat))
        }),
{
    lemma_shows();
}

/// A relay that the gateway admits is named, with the JOIN_ACK.
pub proof fn law_admitted_relay_is_logged(
    node: NodeState,
    frame: FrameView,
    replies: Seq<FrameView>,
    first_bytes: usize,
    second_bytes: usize,
)
    requires
        replies.len() == 1,
    ensures
        ({
            let all = core_log::frame_lines(
                node,
                frame,
                FrameReport::ChildAdmitted,
                replies,
                first_bytes,
                second_bytes,
            );
            &&& shows(all, "rx HELLO from="@, text::decimal(frame.src_id as nat))
            &&& shows(all, " role="@, frame.node_role.spec_label())
            &&& shows(all, " -> tx JOIN_ACK seq="@, text::decimal(replies[0].seq as nat))
            &&& shows(all, " bytes="@, text::decimal(first_bytes as nat))
        }),
{
    lemma_shows();
}

/// A sensor that the relay admits is named, with the JOIN_ACK and the HELLO that goes
/// on to the gateway.
pub proof fn law_admitted_sensor_is_logged(
    node: NodeState,
    frame: FrameView,
    replies: Seq<FrameView>,
    first_bytes: usize,
    second_bytes: usize,
)
    requires
        replies.len() == 2,
    ensures
        ({
            let all = core_log::frame_lines(
                node,
                frame,
                FrameReport::ChildAdmitted,
                replies,
                first_bytes,
                second_bytes,
            );
            &&& shows(all, "rx sensor HELLO from="@, text::decimal(frame.src_id as nat))
            &&& shows(all, " -> tx JOIN_ACK seq="@, text::decimal(replies[0].seq as nat))
            &&& shows(all, " bytes="@, text::decimal(first_bytes as nat))
            &&& shows(
                all,
                "forward sensor HELLO to gateway: src="@,
                text::decimal(replies[1].src_id as nat),
            )
            &&& shows(all, " hop="@, text::decimal(replies[1].hop as nat))
            &&& shows(all, " bytes="@, text::decimal(second_bytes as nat))
        }),
{
    lemma_shows();
}

/// A sensor that the gateway learns of is named, with its way.
pub proof fn law_announced_sensor_is_logged(
    node: NodeState,
    frame: FrameView,
    replies: Seq<FrameView>,
    first_bytes: usize,
    second_bytes: usize,
)
    ensures
        ({
            let all = core_log::frame_lines(
                node,
                frame,
                FrameReport::SensorAnnounced,
                replies,
                first_bytes,
                second_bytes,
            );
            &&& shows(all, "topology: sensor("@, text::decimal(frame.src_id as nat))
            &&& shows(all, ") -> relay("@, text::decimal(2 as nat))
            &&& shows(all, ") -> gateway("@, text::decimal(1 as nat))
            &&& shows(all, ")  hop="@, text::decimal(frame.hop as nat))
        }),
{
    lemma_shows();
}

/// A HELLO that the gateway refuses is named.
pub proof fn law_refused_hello_is_logged(
    node: NodeState,
    frame: FrameView,
    replies: Seq<FrameView>,
    first_bytes: usize,
    second_bytes: usize,
)
    ensures
        ({
            let all = core_log::frame_lines(
                node,
                frame,
                FrameReport::HelloRefused,
                replies,
                first_bytes,
                second_bytes,
            );
            &&& shows(all, "rx HELLO from="@, text::decimal(frame.src_id as nat))
            &&& shows(all, " role="@, frame.node_role.spec_label())
            &&& shows(
                all,
                " ignored by gateway: demo topology requires sensor -> relay -> gateway"@,
                ""@,
            )
        }),
{
    lemma_shows();
}

/// A HEARTBEAT that reaches the relay is named with what it says.
pub proof fn law_heartbeat_at_relay_is_logged(
    node: NodeState,
    frame: FrameView,
    replies: Seq<FrameView>,
    first_bytes: usize,
    second_bytes: usize,
    slot_id: u8,
    hop: u8,
    sync_seq: u16,
    presence_mask: u8,
)
    requires
        node.role != NodeRole::Gateway,
    ensures
        ({
            let report = FrameReport::HeartbeatReceived {
                slot_id,
                hop,
                sync_seq,
                presence_mask,
            };
            let all = core_log::frame_lines(
                node,
                frame,
                report,
                replies,
                first_bytes,
                second_bytes,
            );
            &&& shows(all, "rx HEARTBEAT from="@, text::decimal(frame.src_id as nat))
            &&& shows(all, " reported_data_slot="@, text::decimal(slot_id as nat))
            &&& shows(all, " hop="@, text::decimal(hop as nat))
            &&& shows(all, " sync_seq="@, text::decimal(sync_seq as nat))
            &&& shows(all, " presence=0b"@, text::binary(presence_mask as nat, 8))
        }),
{
    lemma_shows();
}

/// A HEARTBEAT that reaches the gateway is named with what it says, who sent it and
/// when.
pub proof fn law_heartbeat_at_gateway_is_logged(
    node: NodeState,
    frame: FrameView,
    replies: Seq<FrameView>,
    first_bytes: usize,
    second_bytes: usize,
    slot_id: u8,
    hop: u8,
    sync_seq: u16,
    presence_mask: u8,
)
    requires
        node.role == NodeRole::Gateway,
    ensures
        ({
            let report = FrameReport::HeartbeatReceived {
                slot_id,
                hop,
                sync_seq,
                presence_mask,
            };
            let all = core_log::frame_lines(
                node,
                frame,
                report,
                replies,
                first_bytes,
                second_bytes,
            );
            &&& shows(all, "[RX HEARTBEAT] from=node "@, text::decimal(frame.src_id as nat))
            &&& shows(all, " ("@, frame.node_role.spec_label())
            &&& shows(all, ") data_slot="@, text::decimal(slot_id as nat))
            &&& shows(all, " hop="@, text::decimal(frame.hop as nat))
            &&& shows(all, " sync_seq="@, text::decimal(sync_seq as nat))
            &&& shows(all, " presence=0b"@, text::binary(presence_mask as nat, 8))
            &&& shows(all, " gateway_time="@, text::clock(frame.gateway_time_ms))
        }),
{
    lemma_shows();
}

/// A SYNC that the relay keeps is named, with the clock that it set.
pub proof fn law_queued_sync_is_logged(
    node: NodeState,
    frame: FrameView,
    replies: Seq<FrameView>,
    first_bytes: usize,
    second_bytes: usize,
    sync_seq: u16,
    offset_ms: i64,
)
    ensures
        ({
            let all = core_log::frame_lines(
                node,
                frame,
                FrameReport::SyncQueued { sync_seq, offset_ms },
                replies,
                first_bytes,
                second_bytes,
            );
            &&& shows(all, "rx "@, frame.frame_type.spec_label())
            &&& shows(all, " sync_seq="@, text::decimal(sync_seq as nat))
            &&& shows(all, " offset_ms="@, text::signed(offset_ms as int))
            &&& shows(all, " drift="@, text::signed(node.sync.offset_delta_ms as int))
            &&& shows(all, "ms -> queued for control slot"@, ""@)
        }),
{
    lemma_shows();
}

/// A SYNC that the sensor follows is named, with the clock that it set.
pub proof fn law_followed_sync_is_logged(
    node: NodeState,
    frame: FrameView,
    replies: Seq<FrameView>,
    first_bytes: usize,
    second_bytes: usize,
    sync_seq: u16,
    offset_ms: i64,
)
    ensures
        ({
            let all = core_log::frame_lines(
                node,
                frame,
                FrameReport::Synced { sync_seq, offset_ms },
                replies,
                first_bytes,
                second_bytes,
            );
            &&& shows(all, "rx "@, frame.frame_type.spec_label())
            &&& shows(all, ": sync_seq="@, text::decimal(sync_seq as nat))
            &&& shows(all, " offset_ms="@, text::signed(offset_ms as int))
            &&& shows(all, " drift="@, text::signed(node.sync.offset_delta_ms as int))
        }),
{
    lemma_shows();
}

/// An ALARM that the relay keeps is named with what it says and with its ACK.
pub proof fn law_queued_alarm_is_logged(
    node: NodeState,
    frame: FrameView,
    replies: Seq<FrameView>,
    first_bytes: usize,
    second_bytes: usize,
    origin_id: u8,
    origin_seq: u16,
    temp_centi_c: i16,
    humidity_centi_percent: u16,
)
    ensures
        ({
            let report = FrameReport::AlarmQueued {
                origin_id,
                origin_seq,
                temp_centi_c,
                humidity_centi_percent,
            };
            let all = core_log::frame_lines(
                node,
                frame,
                report,
                replies,
                first_bytes,
                second_bytes,
            );
            &&& shows(all, "rx "@, frame.frame_type.spec_label())
            &&& shows(all, " origin="@, text::decimal(origin_id as nat))
            &&& shows(all, " origin_seq="@, text::decimal(origin_seq as nat))
            &&& shows(all, " from="@, text::decimal(frame.src_id as nat))
            &&& shows(all, " "@, text::reading(temp_centi_c, humidity_centi_percent))
            &&& shows(all, " alarm=true -> ack_bytes="@, text::decimal(first_bytes as nat))
        }),
{
    lemma_shows();
}

/// A DATA that the relay keeps is named with what it says.
pub proof fn law_buffered_data_is_logged(
    node: NodeState,
    frame: FrameView,
    replies: Seq<FrameView>,
    first_bytes: usize,
    second_bytes: usize,
    origin_id: u8,
    origin_seq: u16,
    temp_centi_c: i16,
    humidity_centi_percent: u16,
)
    ensures
        ({
            let report = FrameReport::DataBuffered {
                origin_id,
                origin_seq,
                temp_centi_c,
                humidity_centi_percent,
            };
            let all = core_log::frame_lines(
                node,
                frame,
                report,
                replies,
                first_bytes,
                second_bytes,
            );
            &&& shows(all, "rx DATA origin="@, text::decimal(origin_id as nat))
            &&& shows(all, " origin_seq="@, text::decimal(origin_seq as nat))
            &&& shows(all, " from="@, text::decimal(frame.src_id as nat))
            &&& shows(all, " "@, text::reading(temp_centi_c, humidity_centi_percent))
        }),
{
    lemma_shows();
}

/// A JOIN_ACK is named with the place that it gave.
pub proof fn law_joining_is_logged(
    node: NodeState,
    frame: FrameView,
    replies: Seq<FrameView>,
    first_bytes: usize,
    second_bytes: usize,
    parent_id: u8,
    hop: u8,
    slot_id: u8,
)
    ensures
        ({
            let all = core_log::frame_lines(
                node,
                frame,
                FrameReport::Joined { parent_id, hop, slot_id },
                replies,
                first_bytes,
                second_bytes,
            );
            &&& shows(all, "rx JOIN_ACK: parent="@, text::decimal(parent_id as nat))
            &&& shows(all, " hop="@, text::decimal(hop as nat))
            &&& shows(all, " slot="@, text::decimal(slot_id as nat))
        }),
{
    lemma_shows();
}

/// An ACK is named with what it is for, and whether it ended a wait.
pub proof fn law_ack_is_logged(
    node: NodeState,
    frame: FrameView,
    replies: Seq<FrameView>,
    first_bytes: usize,
    second_bytes: usize,
    acked_seq: u16,
    acked_type: FrameType,
    cleared: bool,
)
    ensures
        ({
            let all = core_log::frame_lines(
                node,
                frame,
                FrameReport::Acked { acked_seq, acked_type, cleared },
                replies,
                first_bytes,
                second_bytes,
            );
            &&& shows(all, "rx ACK from="@, text::decimal(frame.src_id as nat))
            &&& shows(all, " acked_seq="@, text::decimal(acked_seq as nat))
            &&& shows(all, " acked_type="@, acked_type.spec_label())
            &&& shows(all, " cleared_pending="@, text::truth(cleared))
        }),
{
    lemma_shows();
}

/// A reading that reaches the gateway is shown with the way it came, its values,
/// whether it is an alarm, and what the gateway did.
pub proof fn law_reading_at_gateway_is_logged(
    node: NodeState,
    frame: FrameView,
    replies: Seq<FrameView>,
    first_bytes: usize,
    second_bytes: usize,
    log: GatewayRxDataLog,
)
    ensures
        ({
            let all = core_log::frame_lines(
                node,
                frame,
                FrameReport::ReadingReceived { log },
                replies,
                first_bytes,
                second_bytes,
            );
            &&& shows(all, "[RX "@, log.frame_type.spec_label())
            &&& shows(all, "] gateway_time="@, text::clock(log.gateway_time_ms))
            &&& shows(all, "source      : "@, "node "@)
            &&& shows(all, "node "@, text::decimal(log.origin_id as nat))
            &&& shows(all, " (sensor), seq="@, text::decimal(log.origin_seq as nat))
            &&& shows(all, "node "@, text::decimal(log.via_id as nat))
            &&& shows(all, " (relay),  seq="@, text::decimal(log.relay_seq as nat))
            &&& shows(all, "hop         : "@, text::decimal(log.hop as nat))
            &&& shows(all, "temperature : "@, text::celsius(log.temp_centi_c))
            &&& shows(all, "humidity    : "@, text::percent(log.humidity_centi_percent))
        }),
{
    lemma_shows();
}

/// Whether a reading is an alarm, what is missing before it, whether it was
/// acknowledged and what the buzzer does is shown with it.
pub proof fn law_alarm_at_gateway_is_logged(log: GatewayRxDataLog)
    ensures
        ({
            let all = demo_log::rx_data_lines(log);
            let buzzer = log.buzzer_action.spec_label();
            &&& log.alarm ==> shows(all, "alarm       : "@, "YES"@)
            &&& !log.alarm ==> shows(all, "alarm       : "@, "NO"@)
            &&& log.origin_seq_gap matches Some(gap) ==> shows(
                all,
                "link        : via relay, crc ok, origin_seq_gap="@,
                text::decimal(gap as nat),
            )
            &&& log.ack_seq matches Some(seq) ==> shows(
                all,
                "action      : tx ACK seq="@,
                text::decimal(seq as nat),
            ) && shows(all, ", buzzer "@, buzzer)
            &&& log.ack_seq is None ==> shows(all, "action      : buzzer "@, buzzer)
        }),
{
    lemma_shows();
}

/// The statistics show every counter and the gateway's clock.
pub proof fn law_statistics_are_logged(stats: GatewayStats, sync: TimeSync, uptime_ms: u64)
    ensures
        ({
            let all = demo_log::stats_lines(stats, sync, uptime_ms);
            &&& shows(all, "[NET STATS] uptime="@, text::clock(uptime_ms))
            &&& shows(all, " rx_data="@, text::decimal(stats.rx_data as nat))
            &&& shows(all, " rx_alarm="@, text::decimal(stats.rx_alarm as nat))
            &&& shows(all, " tx_ack="@, text::decimal(stats.tx_ack as nat))
            &&& shows(
                all,
                " origin_seq_gap_total="@,
                text::decimal(stats.origin_seq_gap_total as nat),
            )
            &&& shows(all, " last_sync="@, text::decimal(stats.last_tx_sync_seq as nat))
            &&& shows(all, " offset="@, text::signed(sync.offset_ms as int))
            &&& shows(all, "ms drift="@, text::signed(sync.offset_delta_ms as int))
            &&& shows(all, "sync       : tx_count="@, text::decimal(stats.tx_sync as nat))
            &&& shows(all, " last_tx_sync_seq="@, text::decimal(stats.last_tx_sync_seq as nat))
            &&& shows(all, "traffic    : rx_total="@, text::decimal(stats.rx_total() as nat))
            &&& shows(all, " data="@, text::decimal(stats.rx_data as nat))
            &&& shows(all, " alarm="@, text::decimal(stats.rx_alarm as nat))
            &&& shows(
                all,
                "link       : slot_violations="@,
                text::decimal(stats.slot_violations as nat),
            )
            &&& shows(all, " last_origin_seq="@, text::optional_seq(stats.last_origin_seq))
        }),
{
    lemma_shows();
}

/// Where nothing happened, nothing is printed: on an idle timer, for a frame that asks
/// for nothing or was dropped for its slot, for an alarm that stays as it is, and
/// for single frames other than the relay's readings.
pub proof fn law_nothing_is_logged_of_nothing(
    state: CoreState,
    frame: FrameView,
    first: Option<FrameView>,
    replies: Seq<FrameView>,
    claimed_slot: u8,
    report: TimerReport,
    bytes: usize,
)
    ensures
        core_log::timer_lines(state, TimerReport::Idle, first, bytes).len() == 0,
        core_log::frame_lines(state.node, frame, FrameReport::Nothing, replies, bytes, bytes).len()
            == 0,
        core_log::frame_lines(
            state.node,
            frame,
            FrameReport::OutOfSlot { claimed_slot },
            replies,
            bytes,
            bytes,
        ).len() == 0,
        core_log::alarm_lines(AlarmReport::Unchanged).len() == 0,
        !(report is ReadingsForwarded) ==> core_log::sent_lines(report, frame, bytes).len() == 0,
{
}

/// The gateway says that it is on the air when it begins, and the sensor says so
/// where an ALARM that waited was cancelled.
pub proof fn law_special_events_are_logged(
    node: NodeState,
    sample: EnvironmentSample,
    bytes: usize,
)
    ensures
        core_log::started_lines(node, None, bytes)
            == "gateway online: broadcasting SYNC/SCHEDULE every TDMA superframe"@ + "\n"@,
        shows(
            core_log::alarm_lines(AlarmReport::Cleared { sample, cancelled: true }),
            "sensor alarm cleared locally: cancel pending ALARM retry"@,
            "\n"@,
        ),
{
    lemma_shows();
}

} // verus!
