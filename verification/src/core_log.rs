//! What the core task prints of what it sends and receives.

use vstd::prelude::*;
use vstd::string::*;

use crate::alarm::EnvironmentSample;
use crate::core_state::CoreState;
use crate::demo::{DemoNode, NodeState};
use crate::demo_log;
use crate::demo_log::{gateway_heartbeat_text, gateway_join_status_text, gateway_rx_data_text};
use crate::hardware::Sht40Config;
use crate::liveness::GatewayJoinStatus;
use crate::node_core;
use crate::node_core::{AlarmReport, FrameReport, NodeCore, TimerReport};
use crate::pending;
use crate::pending::{is_ack_required, origin_seq, PendingAck};
use crate::protocol::{Frame, FrameType, FrameView};
use crate::role::{NodeRole, GATEWAY_ID, RELAY_ID};
use crate::text;
use crate::text::{
    binary_text, decimal_text, line_text, optional_id_text, reading_text, signed_text, truth_text,
};

verus! {

/// Line above a superframe.
pub const SUPERFRAME_LINE: &'static str = "====================superframe=======================";

/// The first HELLO of a node.
pub open spec fn hello_sent_line(node: NodeState, frame: FrameView, bytes: usize) -> Seq<char> {
    text::line(
        node.role.spec_label() + " searching: send "@ + frame.frame_type.spec_label() + " seq="@
            + text::decimal(frame.seq as nat) + " bytes="@ + text::decimal(bytes as nat)
            + " parent="@ + text::optional_id(node.parent_id),
    )
}

/// The first HELLO of a node.
fn hello_sent_text(node: &DemoNode, frame: &Frame, bytes: usize) -> (text: String)
    ensures
        text@ == hello_sent_line(node@, frame@, bytes),
{
    let mut text = String::from_str(node.role().label());
    text.append(" searching: send ");
    text.append(frame.frame_type.label());
    text.append(" seq=");
    text.append(decimal_text(frame.seq as u64).as_str());
    text.append(" bytes=");
    text.append(decimal_text(bytes as u64).as_str());
    text.append(" parent=");
    text.append(optional_id_text(node.parent_id()).as_str());
    line_text(text.as_str())
}

/// Where a node looks for its place.
pub open spec fn searching_line(node: NodeState) -> Seq<char> {
    text::line(
        node.role.spec_label() + " searching: preferred_parent="@
            + text::optional_id(node.parent_id) + " hop="@ + text::decimal(node.hop as nat)
            + " slot="@ + text::decimal(node.slot_id as nat),
    )
}

/// Where a node looks for its place.
fn searching_text(node: &DemoNode) -> (text: String)
    ensures
        text@ == searching_line(node@),
{
    let mut text = String::from_str(node.role().label());
    text.append(" searching: preferred_parent=");
    text.append(optional_id_text(node.parent_id()).as_str());
    text.append(" hop=");
    text.append(decimal_text(node.hop() as u64).as_str());
    text.append(" slot=");
    text.append(decimal_text(node.slot_id() as u64).as_str());
    line_text(text.as_str())
}

/// What a node prints when it begins, with the HELLO that it sent, if any.
pub open spec fn started_lines(
    node: NodeState,
    hello: Option<FrameView>,
    bytes: usize,
) -> Seq<char> {
    match hello {
        None => text::line("gateway online: broadcasting SYNC/SCHEDULE every TDMA superframe"@),
        Some(frame) => hello_sent_line(node, frame, bytes) + searching_line(node),
    }
}

/// What a node prints when it begins, with the HELLO that it sent, if any, and
/// the number of its bytes.
pub fn started_text(node: &DemoNode, hello: &Option<Frame>, bytes: usize) -> (text: String)
    ensures
        text@ == started_lines(node@, node_core::view_of(*hello), bytes),
{
    match hello {
        None => line_text("gateway online: broadcasting SYNC/SCHEDULE every TDMA superframe"),
        Some(frame) => {
            hello_sent_text(node, frame, bytes).concat(searching_text(node).as_str())
        },
    }
}

/// A further HELLO of a node.
pub open spec fn hello_retried_line(
    node: NodeState,
    frame: FrameView,
    bytes: usize,
) -> Seq<char> {
    text::line(
        node.role.spec_label() + " searching: retry "@ + frame.frame_type.spec_label() + " seq="@
            + text::decimal(frame.seq as nat) + " bytes="@ + text::decimal(bytes as nat),
    )
}

/// A further HELLO of a node.
fn hello_retried_text(node: &DemoNode, frame: &Frame, bytes: usize) -> (text: String)
    ensures
        text@ == hello_retried_line(node@, frame@, bytes),
{
    let mut text = String::from_str(node.role().label());
    text.append(" searching: retry ");
    text.append(frame.frame_type.label());
    text.append(" seq=");
    text.append(decimal_text(frame.seq as u64).as_str());
    text.append(" bytes=");
    text.append(decimal_text(bytes as u64).as_str());
    line_text(text.as_str())
}

/// A SYNC that the gateway broadcast.
pub open spec fn sync_sent_line(
    node: NodeState,
    frame: FrameView,
    sync_seq: u16,
    slot: u8,
    bytes: usize,
) -> Seq<char> {
    text::line(
        "tx "@ + frame.frame_type.spec_label() + " frame_seq="@ + text::decimal(frame.seq as nat)
            + " sync_seq="@ + text::decimal(sync_seq as nat) + " schedule_v="@
            + text::decimal(node.schedule.schedule_version as nat) + " active="@
            + text::decimal(node.schedule.active_ms as nat) + "ms guard_before="@
            + text::decimal(node.schedule.guard_before_ms as nat) + "ms gateway_time="@
            + text::decimal(frame.gateway_time_ms as nat) + " slot="@
            + text::decimal(slot as nat) + " bytes="@ + text::decimal(bytes as nat),
    )
}

/// A SYNC that the gateway broadcast.
fn sync_sent_text(
    node: &DemoNode,
    frame: &Frame,
    sync_seq: u16,
    slot: u8,
    bytes: usize,
) -> (text: String)
    ensures
        text@ == sync_sent_line(node@, frame@, sync_seq, slot, bytes),
{
    let mut text = String::from_str("tx ");
    text.append(frame.frame_type.label());
    text.append(" frame_seq=");
    text.append(decimal_text(frame.seq as u64).as_str());
    text.append(" sync_seq=");
    text.append(decimal_text(sync_seq as u64).as_str());
    text.append(" schedule_v=");
    text.append(decimal_text(node.schedule().schedule_version as u64).as_str());
    text.append(" active=");
    text.append(decimal_text(node.schedule().active_ms as u64).as_str());
    text.append("ms guard_before=");
    text.append(decimal_text(node.schedule().guard_before_ms as u64).as_str());
    text.append("ms gateway_time=");
    text.append(decimal_text(frame.gateway_time_ms as u64).as_str());
    text.append(" slot=");
    text.append(decimal_text(slot as u64).as_str());
    text.append(" bytes=");
    text.append(decimal_text(bytes as u64).as_str());
    line_text(text.as_str())
}

/// What the gateway prints at the start of a superframe.
pub open spec fn superframe_lines(
    node: NodeState,
    frame: FrameView,
    sync_seq: u16,
    slot: u8,
    status: GatewayJoinStatus,
    bytes: usize,
) -> Seq<char> {
    text::line(""@) + text::line(""@) + text::line(""@) + text::line(SUPERFRAME_LINE@)
        + sync_sent_line(node, frame, sync_seq, slot, bytes) + demo_log::join_status_line(
        status,
        frame.gateway_time_ms,
    )
}

/// What the gateway prints at the start of a superframe.
fn superframe_text(
    node: &DemoNode,
    frame: &Frame,
    sync_seq: u16,
    slot: u8,
    status: GatewayJoinStatus,
    bytes: usize,
) -> (text: String)
    ensures
        text@ == superframe_lines(node@, frame@, sync_seq, slot, status, bytes),
{
    let mut text = line_text("");
    text.append(line_text("").as_str());
    text.append(line_text("").as_str());
    text.append(line_text(SUPERFRAME_LINE).as_str());
    text.append(sync_sent_text(node, frame, sync_seq, slot, bytes).as_str());
    text.append(gateway_join_status_text(&status, frame.gateway_time_ms).as_str());
    text
}

/// An ALARM that was sent again.
pub open spec fn alarm_retried_line(
    node: NodeState,
    frame: FrameView,
    attempt: u8,
    bytes: usize,
) -> Seq<char> {
    text::line(
        node.role.spec_label() + " retry "@ + frame.frame_type.spec_label() + " seq="@
            + text::decimal(frame.seq as nat) + " attempt="@ + text::decimal(attempt as nat)
            + " bytes="@ + text::decimal(bytes as nat),
    )
}

/// An ALARM that was sent again.
fn alarm_retried_text(
    node: &DemoNode,
    frame: &Frame,
    attempt: u8,
    bytes: usize,
) -> (text: String)
    ensures
        text@ == alarm_retried_line(node@, frame@, attempt, bytes),
{
    let mut text = String::from_str(node.role().label());
    text.append(" retry ");
    text.append(frame.frame_type.label());
    text.append(" seq=");
    text.append(decimal_text(frame.seq as u64).as_str());
    text.append(" attempt=");
    text.append(decimal_text(attempt as u64).as_str());
    text.append(" bytes=");
    text.append(decimal_text(bytes as u64).as_str());
    line_text(text.as_str())
}

/// An ALARM that was given up.
pub open spec fn alarm_dropped_line(
    node: NodeState,
    seq: u16,
    frame_type: FrameType,
) -> Seq<char> {
    text::line(
        node.role.spec_label() + " drop "@ + frame_type.spec_label() + " seq="@
            + text::decimal(seq as nat) + " after "@
            + text::decimal(PendingAck::MAX_ATTEMPTS as nat) + " attempts"@,
    )
}

/// An ALARM that was given up.
fn alarm_dropped_text(node: &DemoNode, seq: u16, frame_type: FrameType) -> (text: String)
    ensures
        text@ == alarm_dropped_line(node@, seq, frame_type),
{
    let mut text = String::from_str(node.role().label());
    text.append(" drop ");
    text.append(frame_type.label());
    text.append(" seq=");
    text.append(decimal_text(seq as u64).as_str());
    text.append(" after ");
    text.append(decimal_text(PendingAck::MAX_ATTEMPTS as u64).as_str());
    text.append(" attempts");
    line_text(text.as_str())
}

/// A SYNC that the relay passed on.
pub open spec fn sync_forwarded_line(node: NodeState, bytes: usize) -> Seq<char> {
    text::line(
        "relay control slot: forward SYNC sync_seq="@
            + text::decimal(node.sync.last_sync_seq as nat) + " offset_ms="@
            + text::signed(node.sync.offset_ms as int) + " drift="@
            + text::signed(node.sync.offset_delta_ms as int) + "ms bytes="@
            + text::decimal(bytes as nat),
    )
}

/// A SYNC that the relay passed on.
fn sync_forwarded_text(node: &DemoNode, bytes: usize) -> (text: String)
    ensures
        text@ == sync_forwarded_line(node@, bytes),
{
    let mut text = String::from_str("relay control slot: forward SYNC sync_seq=");
    text.append(decimal_text(node.sync().last_sync_seq as u64).as_str());
    text.append(" offset_ms=");
    text.append(signed_text(node.sync().offset_ms).as_str());
    text.append(" drift=");
    text.append(signed_text(node.sync().offset_delta_ms).as_str());
    text.append("ms bytes=");
    text.append(decimal_text(bytes as u64).as_str());
    line_text(text.as_str())
}

/// A HEARTBEAT that was sent.
pub open spec fn heartbeat_sent_line(
    node: NodeState,
    frame: FrameView,
    heartbeat_slot: u8,
    presence_mask: u8,
    bytes: usize,
) -> Seq<char> {
    text::line(
        node.role.spec_label() + " tx HEARTBEAT seq="@ + text::decimal(frame.seq as nat)
            + " parent="@ + text::optional_id(node.parent_id) + " data_slot="@
            + text::decimal(node.slot_id as nat) + " heartbeat_slot="@
            + text::decimal(heartbeat_slot as nat) + " sync_seq="@
            + text::decimal(node.sync.last_sync_seq as nat) + " presence=0b"@
            + text::binary(presence_mask as nat, 8) + " offset_ms="@
            + text::signed(node.sync.offset_ms as int) + " drift="@
            + text::signed(node.sync.offset_delta_ms as int) + "ms bytes="@
            + text::decimal(bytes as nat),
    )
}

/// A HEARTBEAT that was sent.
fn heartbeat_sent_text(
    node: &DemoNode,
    frame: &Frame,
    heartbeat_slot: u8,
    presence_mask: u8,
    bytes: usize,
) -> (text: String)
    ensures
        text@ == heartbeat_sent_line(node@, frame@, heartbeat_slot, presence_mask, bytes),
{
    let mut text = String::from_str(node.role().label());
    text.append(" tx HEARTBEAT seq=");
    text.append(decimal_text(frame.seq as u64).as_str());
    text.append(" parent=");
    text.append(optional_id_text(node.parent_id()).as_str());
    text.append(" data_slot=");
    text.append(decimal_text(node.slot_id() as u64).as_str());
    text.append(" heartbeat_slot=");
    text.append(decimal_text(heartbeat_slot as u64).as_str());
    text.append(" sync_seq=");
    text.append(decimal_text(node.sync().last_sync_seq as u64).as_str());
    text.append(" presence=0b");
    text.append(binary_text(presence_mask as u64, 8).as_str());
    text.append(" offset_ms=");
    text.append(signed_text(node.sync().offset_ms).as_str());
    text.append(" drift=");
    text.append(signed_text(node.sync().offset_delta_ms).as_str());
    text.append("ms bytes=");
    text.append(decimal_text(bytes as u64).as_str());
    line_text(text.as_str())
}

/// A reading that the sensor sent.
pub open spec fn reading_sent_line(
    node: NodeState,
    frame: FrameView,
    sample: EnvironmentSample,
    bytes: usize,
) -> Seq<char> {
    text::line(
        "tx "@ + frame.frame_type.spec_label() + " seq="@ + text::decimal(frame.seq as nat)
            + " parent="@ + text::optional_id(node.parent_id) + " "@
            + text::reading(sample.temp_centi_c, sample.humidity_centi_percent)
            + " gateway_time="@ + text::decimal(frame.gateway_time_ms as nat) + " bytes="@
            + text::decimal(bytes as nat),
    )
}

/// A reading that the sensor sent.
fn reading_sent_text(
    node: &DemoNode,
    frame: &Frame,
    sample: EnvironmentSample,
    bytes: usize,
) -> (text: String)
    ensures
        text@ == reading_sent_line(node@, frame@, sample, bytes),
{
    let mut text = String::from_str("tx ");
    text.append(frame.frame_type.label());
    text.append(" seq=");
    text.append(decimal_text(frame.seq as u64).as_str());
    text.append(" parent=");
    text.append(optional_id_text(node.parent_id()).as_str());
    text.append(" ");
    text.append(reading_text(sample.temp_centi_c, sample.humidity_centi_percent).as_str());
    text.append(" gateway_time=");
    text.append(decimal_text(frame.gateway_time_ms as u64).as_str());
    text.append(" bytes=");
    text.append(decimal_text(bytes as u64).as_str());
    line_text(text.as_str())
}

/// What still waits at the relay after its slot.
pub open spec fn relay_slot_line(state: CoreState) -> Seq<char> {
    text::line(
        "relay slot active: buffered_data="@ + text::truth(state.buffered.len() > 0)
            + " pending_ack="@ + text::truth(state.pending.frame is Some) + " parent="@
            + text::optional_id(state.node.parent_id) + " hop="@
            + text::decimal(state.node.hop as nat) + " sync_seq="@
            + text::decimal(state.node.sync.last_sync_seq as nat) + " offset_ms="@
            + text::signed(state.node.sync.offset_ms as int) + " offset_delta="@
            + text::signed(state.node.sync.offset_delta_ms as int) + "ms"@,
    )
}

/// What still waits at the relay after its slot.
fn relay_slot_text(core: &NodeCore) -> (text: String)
    ensures
        text@ == relay_slot_line(core@),
{
    let mut text = String::from_str("relay slot active: buffered_data=");
    text.append(truth_text(core.has_buffered_data()));
    text.append(" pending_ack=");
    text.append(truth_text(core.has_pending_ack()));
    text.append(" parent=");
    text.append(optional_id_text(core.node().parent_id()).as_str());
    text.append(" hop=");
    text.append(decimal_text(core.node().hop() as u64).as_str());
    text.append(" sync_seq=");
    text.append(decimal_text(core.node().sync().last_sync_seq as u64).as_str());
    text.append(" offset_ms=");
    text.append(signed_text(core.node().sync().offset_ms).as_str());
    text.append(" offset_delta=");
    text.append(signed_text(core.node().sync().offset_delta_ms).as_str());
    text.append("ms");
    line_text(text.as_str())
}

/// An ALARM that the relay passed on.
pub open spec fn alarm_forwarded_line(frame: FrameView, bytes: usize) -> Seq<char> {
    text::line(
        "relay slot tx ALARM origin_seq="@ + text::decimal(pending::origin_seq_of(frame) as nat)
            + " relay_seq="@ + text::decimal(frame.seq as nat) + " ack_required=true bytes="@
            + text::decimal(bytes as nat),
    )
}

/// An ALARM that the relay passed on.
fn alarm_forwarded_text(frame: &Frame, bytes: usize) -> (text: String)
    ensures
        text@ == alarm_forwarded_line(frame@, bytes),
{
    let mut text = String::from_str("relay slot tx ALARM origin_seq=");
    text.append(decimal_text(origin_seq(frame) as u64).as_str());
    text.append(" relay_seq=");
    text.append(decimal_text(frame.seq as u64).as_str());
    text.append(" ack_required=true bytes=");
    text.append(decimal_text(bytes as u64).as_str());
    line_text(text.as_str())
}

/// A DATA that the relay passed on.
pub open spec fn data_forwarded_line(frame: FrameView, bytes: usize) -> Seq<char> {
    text::line(
        "relay slot tx buffered "@ + frame.frame_type.spec_label() + " origin_seq="@
            + text::decimal(pending::origin_seq_of(frame) as nat) + " relay_seq="@
            + text::decimal(frame.seq as nat) + " ack_required="@
            + text::truth(is_ack_required(frame.frame_type)) + " bytes="@
            + text::decimal(bytes as nat),
    )
}

/// A DATA that the relay passed on.
fn data_forwarded_text(frame: &Frame, bytes: usize) -> (text: String)
    ensures
        text@ == data_forwarded_line(frame@, bytes),
{
    let mut text = String::from_str("relay slot tx buffered ");
    text.append(frame.frame_type.label());
    text.append(" origin_seq=");
    text.append(decimal_text(origin_seq(frame) as u64).as_str());
    text.append(" relay_seq=");
    text.append(decimal_text(frame.seq as u64).as_str());
    text.append(" ack_required=");
    text.append(truth_text(is_ack_required(frame.frame_type)));
    text.append(" bytes=");
    text.append(decimal_text(bytes as u64).as_str());
    line_text(text.as_str())
}

/// What is printed of a frame right after it was sent, where the timer led to
/// `report`: only the relay's readings are listed one by one.
pub open spec fn sent_lines(report: TimerReport, frame: FrameView, bytes: usize) -> Seq<char> {
    match report {
        TimerReport::ReadingsForwarded => if frame.frame_type == FrameType::Alarm {
            alarm_forwarded_line(frame, bytes)
        } else {
            data_forwarded_line(frame, bytes)
        },
        _ => Seq::empty(),
    }
}

/// What is printed of a frame right after it was sent, with the number of its
/// bytes.
pub fn sent_text(report: TimerReport, frame: &Frame, bytes: usize) -> (text: String)
    ensures
        text@ == sent_lines(report, frame@, bytes),
{
    match report {
        TimerReport::ReadingsForwarded => {
            if frame.frame_type == FrameType::Alarm {
                alarm_forwarded_text(frame, bytes)
            } else {
                data_forwarded_text(frame, bytes)
            }
        },
        _ => String::new(),
    }
}

/// What is printed when all frames are sent that the timer led to. `first` is the
/// first of them, and `bytes` the number of bytes of the last.
pub open spec fn timer_lines(
    state: CoreState,
    report: TimerReport,
    first: Option<FrameView>,
    bytes: usize,
) -> Seq<char> {
    match (report, first) {
        (TimerReport::HelloRetried, Some(frame)) => hello_retried_line(state.node, frame, bytes),
        (TimerReport::SyncBroadcast { sync_seq, slot, status, .. }, Some(frame)) => {
            superframe_lines(state.node, frame, sync_seq, slot, status, bytes)
        },
        (TimerReport::AlarmRetried { attempt }, Some(frame)) => {
            alarm_retried_line(state.node, frame, attempt, bytes)
        },
        (TimerReport::AlarmDropped { seq, frame_type }, _) => {
            alarm_dropped_line(state.node, seq, frame_type)
        },
        (TimerReport::SyncForwarded, _) => sync_forwarded_line(state.node, bytes),
        (TimerReport::HeartbeatSent { heartbeat_slot, presence_mask }, Some(frame)) => {
            heartbeat_sent_line(state.node, frame, heartbeat_slot, presence_mask, bytes)
        },
        (TimerReport::ReadingSent { sample }, Some(frame)) => {
            reading_sent_line(state.node, frame, sample, bytes)
        },
        (TimerReport::ReadingsForwarded, _) => relay_slot_line(state),
        _ => Seq::empty(),
    }
}

/// What is printed when all frames are sent that the timer led to. `first` is the
/// first of them, and `bytes` the number of bytes of the last.
pub fn timer_text(
    core: &NodeCore,
    report: TimerReport,
    first: Option<&Frame>,
    bytes: usize,
) -> (text: String)
    ensures
        text@ == timer_lines(
            core@,
            report,
            match first {
                Some(frame) => Some(frame@),
                None => None,
            },
            bytes,
        ),
{
    let node = core.node();
    match (report, first) {
        (TimerReport::HelloRetried, Some(frame)) => hello_retried_text(node, frame, bytes),
        (TimerReport::SyncBroadcast { sync_seq, slot, status, .. }, Some(frame)) => {
            superframe_text(node, frame, sync_seq, slot, status, bytes)
        },
        (TimerReport::AlarmRetried { attempt }, Some(frame)) => {
            alarm_retried_text(node, frame, attempt, bytes)
        },
        (TimerReport::AlarmDropped { seq, frame_type }, _) => {
            alarm_dropped_text(node, seq, frame_type)
        },
        (TimerReport::SyncForwarded, _) => sync_forwarded_text(node, bytes),
        (TimerReport::HeartbeatSent { heartbeat_slot, presence_mask }, Some(frame)) => {
            heartbeat_sent_text(node, frame, heartbeat_slot, presence_mask, bytes)
        },
        (TimerReport::ReadingSent { sample }, Some(frame)) => {
            reading_sent_text(node, frame, sample, bytes)
        },
        (TimerReport::ReadingsForwarded, _) => relay_slot_text(core),
        _ => String::new(),
    }
}

/// A reading that began or ended an alarm, and the thresholds it was held against.
pub open spec fn threshold_line(
    name: Seq<char>,
    sample: EnvironmentSample,
    kind: Seq<char>,
    temp_centi_c: i16,
    humidity_centi_percent: u16,
) -> Seq<char> {
    text::line(
        name + text::reading(sample.temp_centi_c, sample.humidity_centi_percent) + kind
            + text::signed(temp_centi_c as int) + "cC/"@
            + text::decimal(humidity_centi_percent as nat) + "c%"@,
    )
}

/// A reading that began or ended an alarm, and the thresholds it was held against.
fn threshold_text(
    name: &str,
    sample: EnvironmentSample,
    kind: &str,
    temp_centi_c: i16,
    humidity_centi_percent: u16,
) -> (text: String)
    ensures
        text@ == threshold_line(name@, sample, kind@, temp_centi_c, humidity_centi_percent),
{
    let mut text = String::from_str(name);
    text.append(reading_text(sample.temp_centi_c, sample.humidity_centi_percent).as_str());
    text.append(kind);
    text.append(signed_text(temp_centi_c as i64).as_str());
    text.append("cC/");
    text.append(decimal_text(humidity_centi_percent as u64).as_str());
    text.append("c%");
    line_text(text.as_str())
}

/// What the sensor prints when its alarm begins or ends.
pub open spec fn alarm_lines(report: AlarmReport) -> Seq<char> {
    let config = Sht40Config::standard();
    match report {
        AlarmReport::Unchanged => Seq::empty(),
        AlarmReport::Raised { sample } => threshold_line(
            "sensor alarm raised: "@,
            sample,
            " thresholds="@,
            config.temp_alarm_centi_c,
            config.humidity_alarm_centi_percent,
        ),
        AlarmReport::Cleared { sample, cancelled } => (if cancelled {
            text::line("sensor alarm cleared locally: cancel pending ALARM retry"@)
        } else {
            Seq::empty()
        }) + threshold_line(
            "sensor alarm cleared: "@,
            sample,
            " clear_thresholds="@,
            config.temp_clear_centi_c,
            config.humidity_clear_centi_percent,
        ),
    }
}

/// What the sensor prints when its alarm begins or ends.
pub fn alarm_text(report: AlarmReport) -> (text: String)
    ensures
        text@ == alarm_lines(report),
{
    let config = Sht40Config::standard();
    match report {
        AlarmReport::Unchanged => String::new(),
        AlarmReport::Raised { sample } => threshold_text(
            "sensor alarm raised: ",
            sample,
            " thresholds=",
            config.temp_alarm_centi_c,
            config.humidity_alarm_centi_percent,
        ),
        AlarmReport::Cleared { sample, cancelled } => {
            let mut text = if cancelled {
                line_text("sensor alarm cleared locally: cancel pending ALARM retry")
            } else {
                String::new()
            };
            text.append(
                threshold_text(
                    "sensor alarm cleared: ",
                    sample,
                    " clear_thresholds=",
                    config.temp_clear_centi_c,
                    config.humidity_clear_centi_percent,
                ).as_str(),
            );
            text
        },
    }
}

/// The warning about a frame that was dropped for its slot.
pub open spec fn out_of_slot_warning(frame: FrameView, claimed_slot: u8) -> Seq<char> {
    "drop out-of-slot "@ + frame.frame_type.spec_label() + " from "@
        + text::decimal(frame.src_id as nat) + " claimed_slot="@
        + text::decimal(claimed_slot as nat)
}

/// The warning about a frame that was dropped for its slot.
pub fn out_of_slot_text(frame: &Frame, claimed_slot: u8) -> (text: String)
    ensures
        text@ == out_of_slot_warning(frame@, claimed_slot),
{
    let mut text = String::from_str("drop out-of-slot ");
    text.append(frame.frame_type.label());
    text.append(" from ");
    text.append(decimal_text(frame.src_id as u64).as_str());
    text.append(" claimed_slot=");
    text.append(decimal_text(claimed_slot as u64).as_str());
    text
}

/// A sensor that the relay admitted.
pub open spec fn sensor_admitted_line(
    frame: FrameView,
    ack: FrameView,
    bytes: usize,
) -> Seq<char> {
    text::line(
        "rx sensor HELLO from="@ + text::decimal(frame.src_id as nat) + " -> tx JOIN_ACK seq="@
            + text::decimal(ack.seq as nat) + " bytes="@ + text::decimal(bytes as nat),
    )
}

/// A sensor that the relay admitted.
fn sensor_admitted_text(frame: &Frame, ack: &Frame, bytes: usize) -> (text: String)
    ensures
        text@ == sensor_admitted_line(frame@, ack@, bytes),
{
    let mut text = String::from_str("rx sensor HELLO from=");
    text.append(decimal_text(frame.src_id as u64).as_str());
    text.append(" -> tx JOIN_ACK seq=");
    text.append(decimal_text(ack.seq as u64).as_str());
    text.append(" bytes=");
    text.append(decimal_text(bytes as u64).as_str());
    line_text(text.as_str())
}

/// The HELLO of a sensor that the relay passed on.
pub open spec fn hello_forwarded_line(notify: FrameView, bytes: usize) -> Seq<char> {
    text::line(
        "forward sensor HELLO to gateway: src="@ + text::decimal(notify.src_id as nat) + " hop="@
            + text::decimal(notify.hop as nat) + " bytes="@ + text::decimal(bytes as nat),
    )
}

/// The HELLO of a sensor that the relay passed on.
fn hello_forwarded_text(notify: &Frame, bytes: usize) -> (text: String)
    ensures
        text@ == hello_forwarded_line(notify@, bytes),
{
    let mut text = String::from_str("forward sensor HELLO to gateway: src=");
    text.append(decimal_text(notify.src_id as u64).as_str());
    text.append(" hop=");
    text.append(decimal_text(notify.hop as u64).as_str());
    text.append(" bytes=");
    text.append(decimal_text(bytes as u64).as_str());
    line_text(text.as_str())
}

/// A child that the gateway admitted.
pub open spec fn child_admitted_line(
    frame: FrameView,
    ack: FrameView,
    bytes: usize,
) -> Seq<char> {
    text::line(
        "rx HELLO from="@ + text::decimal(frame.src_id as nat) + " role="@
            + frame.node_role.spec_label() + " -> tx JOIN_ACK seq="@
            + text::decimal(ack.seq as nat) + " bytes="@ + text::decimal(bytes as nat),
    )
}

/// A child that the gateway admitted.
fn child_admitted_text(frame: &Frame, ack: &Frame, bytes: usize) -> (text: String)
    ensures
        text@ == child_admitted_line(frame@, ack@, bytes),
{
    let mut text = String::from_str("rx HELLO from=");
    text.append(decimal_text(frame.src_id as u64).as_str());
    text.append(" role=");
    text.append(frame.node_role.label());
    text.append(" -> tx JOIN_ACK seq=");
    text.append(decimal_text(ack.seq as u64).as_str());
    text.append(" bytes=");
    text.append(decimal_text(bytes as u64).as_str());
    line_text(text.as_str())
}

/// What is printed of a child that was admitted: `replies` are the JOIN_ACK and,
/// at the relay, the HELLO that was passed on.
pub open spec fn admitted_lines(
    frame: FrameView,
    replies: Seq<FrameView>,
    first_bytes: usize,
    second_bytes: usize,
) -> Seq<char> {
    if replies.len() == 0 {
        Seq::empty()
    } else if replies.len() == 1 {
        child_admitted_line(frame, replies[0], first_bytes)
    } else {
        sensor_admitted_line(frame, replies[0], first_bytes) + hello_forwarded_line(
            replies[1],
            second_bytes,
        )
    }
}

/// What is printed of a child that was admitted.
fn admitted_text(
    frame: &Frame,
    replies: &Vec<Frame>,
    first_bytes: usize,
    second_bytes: usize,
) -> (text: String)
    ensures
        text@ == admitted_lines(frame@, node_core::views(replies@), first_bytes, second_bytes),
{
    if replies.len() == 0 {
        String::new()
    } else if replies.len() == 1 {
        child_admitted_text(frame, &replies[0], first_bytes)
    } else {
        let mut text = sensor_admitted_text(frame, &replies[0], first_bytes);
        text.append(hello_forwarded_text(&replies[1], second_bytes).as_str());
        text
    }
}

/// A sensor that the gateway learned of.
pub open spec fn sensor_announced_line(frame: FrameView) -> Seq<char> {
    text::line(
        "topology: sensor("@ + text::decimal(frame.src_id as nat) + ") -> relay("@
            + text::decimal(RELAY_ID as nat) + ") -> gateway("@
            + text::decimal(GATEWAY_ID as nat) + ")  hop="@ + text::decimal(frame.hop as nat),
    )
}

/// A sensor that the gateway learned of.
fn sensor_announced_text(frame: &Frame) -> (text: String)
    ensures
        text@ == sensor_announced_line(frame@),
{
    let mut text = String::from_str("topology: sensor(");
    text.append(decimal_text(frame.src_id as u64).as_str());
    text.append(") -> relay(");
    text.append(decimal_text(RELAY_ID as u64).as_str());
    text.append(") -> gateway(");
    text.append(decimal_text(GATEWAY_ID as u64).as_str());
    text.append(")  hop=");
    text.append(decimal_text(frame.hop as u64).as_str());
    line_text(text.as_str())
}

/// A HELLO that the gateway does not answer.
pub open spec fn hello_refused_line(frame: FrameView) -> Seq<char> {
    text::line(
        "rx HELLO from="@ + text::decimal(frame.src_id as nat) + " role="@
            + frame.node_role.spec_label()
            + " ignored by gateway: demo topology requires sensor -> relay -> gateway"@,
    )
}

/// A HELLO that the gateway does not answer.
fn hello_refused_text(frame: &Frame) -> (text: String)
    ensures
        text@ == hello_refused_line(frame@),
{
    let mut text = String::from_str("rx HELLO from=");
    text.append(decimal_text(frame.src_id as u64).as_str());
    text.append(" role=");
    text.append(frame.node_role.label());
    text.append(" ignored by gateway: demo topology requires sensor -> relay -> gateway");
    line_text(text.as_str())
}

/// A HEARTBEAT that reached the relay.
pub open spec fn heartbeat_received_line(
    frame: FrameView,
    slot_id: u8,
    hop: u8,
    sync_seq: u16,
    presence_mask: u8,
) -> Seq<char> {
    text::line(
        "rx HEARTBEAT from="@ + text::decimal(frame.src_id as nat) + " reported_data_slot="@
            + text::decimal(slot_id as nat) + " hop="@ + text::decimal(hop as nat)
            + " sync_seq="@ + text::decimal(sync_seq as nat) + " presence=0b"@
            + text::binary(presence_mask as nat, 8),
    )
}

/// A HEARTBEAT that reached the relay.
fn heartbeat_received_text(
    frame: &Frame,
    slot_id: u8,
    hop: u8,
    sync_seq: u16,
    presence_mask: u8,
) -> (text: String)
    ensures
        text@ == heartbeat_received_line(frame@, slot_id, hop, sync_seq, presence_mask),
{
    let mut text = String::from_str("rx HEARTBEAT from=");
    text.append(decimal_text(frame.src_id as u64).as_str());
    text.append(" reported_data_slot=");
    text.append(decimal_text(slot_id as u64).as_str());
    text.append(" hop=");
    text.append(decimal_text(hop as u64).as_str());
    text.append(" sync_seq=");
    text.append(decimal_text(sync_seq as u64).as_str());
    text.append(" presence=0b");
    text.append(binary_text(presence_mask as u64, 8).as_str());
    line_text(text.as_str())
}

/// A SYNC that the relay keeps for its control slot.
pub open spec fn sync_queued_line(
    node: NodeState,
    frame: FrameView,
    sync_seq: u16,
    offset_ms: i64,
) -> Seq<char> {
    text::line(
        "rx "@ + frame.frame_type.spec_label() + " sync_seq="@ + text::decimal(sync_seq as nat)
            + " offset_ms="@ + text::signed(offset_ms as int) + " drift="@
            + text::signed(node.sync.offset_delta_ms as int) + "ms -> queued for control slot"@,
    )
}

/// A SYNC that the relay keeps for its control slot.
fn sync_queued_text(
    node: &DemoNode,
    frame: &Frame,
    sync_seq: u16,
    offset_ms: i64,
) -> (text: String)
    ensures
        text@ == sync_queued_line(node@, frame@, sync_seq, offset_ms),
{
    let mut text = String::from_str("rx ");
    text.append(frame.frame_type.label());
    text.append(" sync_seq=");
    text.append(decimal_text(sync_seq as u64).as_str());
    text.append(" offset_ms=");
    text.append(signed_text(offset_ms).as_str());
    text.append(" drift=");
    text.append(signed_text(node.sync().offset_delta_ms).as_str());
    text.append("ms -> queued for control slot");
    line_text(text.as_str())
}

/// An ALARM that the relay acknowledged and keeps for its slot.
pub open spec fn alarm_queued_line(
    frame: FrameView,
    origin_id: u8,
    origin_seq: u16,
    temp_centi_c: i16,
    humidity_centi_percent: u16,
    ack_bytes: usize,
) -> Seq<char> {
    text::line(
        "rx "@ + frame.frame_type.spec_label() + " origin="@ + text::decimal(origin_id as nat)
            + " origin_seq="@ + text::decimal(origin_seq as nat) + " from="@
            + text::decimal(frame.src_id as nat) + " "@
            + text::reading(temp_centi_c, humidity_centi_percent) + " alarm=true -> ack_bytes="@
            + text::decimal(ack_bytes as nat) + " queued_for_relay_slot"@,
    )
}

/// An ALARM that the relay acknowledged and keeps for its slot.
fn alarm_queued_text(
    frame: &Frame,
    origin_id: u8,
    origin_seq: u16,
    temp_centi_c: i16,
    humidity_centi_percent: u16,
    ack_bytes: usize,
) -> (text: String)
    ensures
        text@ == alarm_queued_line(
            frame@,
            origin_id,
            origin_seq,
            temp_centi_c,
            humidity_centi_percent,
            ack_bytes,
        ),
{
    let mut text = String::from_str("rx ");
    text.append(frame.frame_type.label());
    text.append(" origin=");
    text.append(decimal_text(origin_id as u64).as_str());
    text.append(" origin_seq=");
    text.append(decimal_text(origin_seq as u64).as_str());
    text.append(" from=");
    text.append(decimal_text(frame.src_id as u64).as_str());
    text.append(" ");
    text.append(reading_text(temp_centi_c, humidity_centi_percent).as_str());
    text.append(" alarm=true -> ack_bytes=");
    text.append(decimal_text(ack_bytes as u64).as_str());
    text.append(" queued_for_relay_slot");
    line_text(text.as_str())
}

/// A DATA that the relay keeps for its slot.
pub open spec fn data_buffered_line(
    frame: FrameView,
    origin_id: u8,
    origin_seq: u16,
    temp_centi_c: i16,
    humidity_centi_percent: u16,
) -> Seq<char> {
    text::line(
        "rx DATA origin="@ + text::decimal(origin_id as nat) + " origin_seq="@
            + text::decimal(origin_seq as nat) + " from="@ + text::decimal(frame.src_id as nat)
            + " "@ + text::reading(temp_centi_c, humidity_centi_percent)
            + " -> buffered_for_relay_slot"@,
    )
}

/// A DATA that the relay keeps for its slot.
fn data_buffered_text(
    frame: &Frame,
    origin_id: u8,
    origin_seq: u16,
    temp_centi_c: i16,
    humidity_centi_percent: u16,
) -> (text: String)
    ensures
        text@ == data_buffered_line(
            frame@,
            origin_id,
            origin_seq,
            temp_centi_c,
            humidity_centi_percent,
        ),
{
    let mut text = String::from_str("rx DATA origin=");
    text.append(decimal_text(origin_id as u64).as_str());
    text.append(" origin_seq=");
    text.append(decimal_text(origin_seq as u64).as_str());
    text.append(" from=");
    text.append(decimal_text(frame.src_id as u64).as_str());
    text.append(" ");
    text.append(reading_text(temp_centi_c, humidity_centi_percent).as_str());
    text.append(" -> buffered_for_relay_slot");
    line_text(text.as_str())
}

/// A JOIN_ACK that the node joined with.
pub open spec fn joined_line(parent_id: u8, hop: u8, slot_id: u8) -> Seq<char> {
    text::line(
        "rx JOIN_ACK: parent="@ + text::decimal(parent_id as nat) + " hop="@
            + text::decimal(hop as nat) + " slot="@ + text::decimal(slot_id as nat),
    )
}

/// A JOIN_ACK that the node joined with.
fn joined_text(parent_id: u8, hop: u8, slot_id: u8) -> (text: String)
    ensures
        text@ == joined_line(parent_id, hop, slot_id),
{
    let mut text = String::from_str("rx JOIN_ACK: parent=");
    text.append(decimal_text(parent_id as u64).as_str());
    text.append(" hop=");
    text.append(decimal_text(hop as u64).as_str());
    text.append(" slot=");
    text.append(decimal_text(slot_id as u64).as_str());
    line_text(text.as_str())
}

/// A SYNC that set the sensor's clock.
pub open spec fn synced_line(
    node: NodeState,
    frame: FrameView,
    sync_seq: u16,
    offset_ms: i64,
) -> Seq<char> {
    text::line(
        "rx "@ + frame.frame_type.spec_label() + ": sync_seq="@ + text::decimal(sync_seq as nat)
            + " offset_ms="@ + text::signed(offset_ms as int) + " drift="@
            + text::signed(node.sync.offset_delta_ms as int) + "ms"@,
    )
}

/// A SYNC that set the sensor's clock.
fn synced_text(node: &DemoNode, frame: &Frame, sync_seq: u16, offset_ms: i64) -> (text: String)
    ensures
        text@ == synced_line(node@, frame@, sync_seq, offset_ms),
{
    let mut text = String::from_str("rx ");
    text.append(frame.frame_type.label());
    text.append(": sync_seq=");
    text.append(decimal_text(sync_seq as u64).as_str());
    text.append(" offset_ms=");
    text.append(signed_text(offset_ms).as_str());
    text.append(" drift=");
    text.append(signed_text(node.sync().offset_delta_ms).as_str());
    text.append("ms");
    line_text(text.as_str())
}

/// An ACK that arrived.
pub open spec fn acked_line(
    frame: FrameView,
    acked_seq: u16,
    acked_type: FrameType,
    cleared: bool,
) -> Seq<char> {
    text::line(
        "rx ACK from="@ + text::decimal(frame.src_id as nat) + " acked_seq="@
            + text::decimal(acked_seq as nat) + " acked_type="@ + acked_type.spec_label()
            + " cleared_pending="@ + text::truth(cleared),
    )
}

/// An ACK that arrived.
fn acked_text(
    frame: &Frame,
    acked_seq: u16,
    acked_type: FrameType,
    cleared: bool,
) -> (text: String)
    ensures
        text@ == acked_line(frame@, acked_seq, acked_type, cleared),
{
    let mut text = String::from_str("rx ACK from=");
    text.append(decimal_text(frame.src_id as u64).as_str());
    text.append(" acked_seq=");
    text.append(decimal_text(acked_seq as u64).as_str());
    text.append(" acked_type=");
    text.append(acked_type.label());
    text.append(" cleared_pending=");
    text.append(truth_text(cleared));
    line_text(text.as_str())
}

/// What is printed of a received frame when the `replies` to it are sent, the
/// first two of them in so many bytes. A frame that was dropped for its slot is a
/// warning of its own.
pub open spec fn frame_lines(
    node: NodeState,
    frame: FrameView,
    report: FrameReport,
    replies: Seq<FrameView>,
    first_bytes: usize,
    second_bytes: usize,
) -> Seq<char> {
    match report {
        FrameReport::Nothing | FrameReport::OutOfSlot { .. } => Seq::empty(),
        FrameReport::ChildAdmitted => admitted_lines(frame, replies, first_bytes, second_bytes),
        FrameReport::SensorAnnounced => sensor_announced_line(frame),
        FrameReport::HelloRefused => hello_refused_line(frame),
        FrameReport::ReadingReceived { log } => demo_log::rx_data_lines(log),
        FrameReport::HeartbeatReceived { slot_id, hop, sync_seq, presence_mask } => {
            if node.role == NodeRole::Gateway {
                demo_log::heartbeat_line(frame, slot_id, sync_seq, presence_mask)
            } else {
                heartbeat_received_line(frame, slot_id, hop, sync_seq, presence_mask)
            }
        },
        FrameReport::SyncQueued { sync_seq, offset_ms } => {
            sync_queued_line(node, frame, sync_seq, offset_ms)
        },
        FrameReport::AlarmQueued {
            origin_id,
            origin_seq,
            temp_centi_c,
            humidity_centi_percent,
        } => alarm_queued_line(
            frame,
            origin_id,
            origin_seq,
            temp_centi_c,
            humidity_centi_percent,
            first_bytes,
        ),
        FrameReport::DataBuffered {
            origin_id,
            origin_seq,
            temp_centi_c,
            humidity_centi_percent,
        } => data_buffered_line(
            frame,
            origin_id,
            origin_seq,
            temp_centi_c,
            humidity_centi_percent,
        ),
        FrameReport::Joined { parent_id, hop, slot_id } => joined_line(parent_id, hop, slot_id),
        FrameReport::Synced { sync_seq, offset_ms } => {
            synced_line(node, frame, sync_seq, offset_ms)
        },
        FrameReport::Acked { acked_seq, acked_type, cleared } => {
            acked_line(frame, acked_seq, acked_type, cleared)
        },
    }
}

/// What is printed of a received frame when the `replies` to it are sent, the
/// first two of them in so many bytes.
pub fn frame_text(
    node: &DemoNode,
    frame: &Frame,
    report: FrameReport,
    replies: &Vec<Frame>,
    first_bytes: usize,
    second_bytes: usize,
) -> (text: String)
    ensures
        text@ == frame_lines(
            node@,
            frame@,
            report,
            node_core::views(replies@),
            first_bytes,
            second_bytes,
        ),
{
    match report {
        FrameReport::Nothing | FrameReport::OutOfSlot { .. } => String::new(),
        FrameReport::ChildAdmitted => admitted_text(frame, replies, first_bytes, second_bytes),
        FrameReport::SensorAnnounced => sensor_announced_text(frame),
        FrameReport::HelloRefused => hello_refused_text(frame),
        FrameReport::ReadingReceived { log } => gateway_rx_data_text(&log),
        FrameReport::HeartbeatReceived { slot_id, hop, sync_seq, presence_mask } => {
            if node.role() == NodeRole::Gateway {
                gateway_heartbeat_text(frame, slot_id, sync_seq, presence_mask)
            } else {
                heartbeat_received_text(frame, slot_id, hop, sync_seq, presence_mask)
            }
        },
        FrameReport::SyncQueued { sync_seq, offset_ms } => {
            sync_queued_text(node, frame, sync_seq, offset_ms)
        },
        FrameReport::AlarmQueued {
            origin_id,
            origin_seq,
            temp_centi_c,
            humidity_centi_percent,
        } => alarm_queued_text(
            frame,
            origin_id,
            origin_seq,
            temp_centi_c,
            humidity_centi_percent,
            first_bytes,
        ),
        FrameReport::DataBuffered {
            origin_id,
            origin_seq,
            temp_centi_c,
            humidity_centi_percent,
        } => data_buffered_text(
            frame,
            origin_id,
            origin_seq,
            temp_centi_c,
            humidity_centi_percent,
        ),
        FrameReport::Joined { parent_id, hop, slot_id } => joined_text(parent_id, hop, slot_id),
        FrameReport::Synced { sync_seq, offset_ms } => {
            synced_text(node, frame, sync_seq, offset_ms)
        },
        FrameReport::Acked { acked_seq, acked_type, cleared } => {
            acked_text(frame, acked_seq, acked_type, cleared)
        },
    }
}

} // verus!
