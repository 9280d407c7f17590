//! What the gateway counts and reports.

use vstd::prelude::*;
use vstd::string::*;

use crate::liveness::GatewayJoinStatus;
use crate::protocol::{Frame, FrameType, FrameView};
use crate::tdma::TimeSync;
use crate::text;
use crate::text::{
    binary_text, celsius_text, clock_text, decimal_text, last_seen_text, line_text,
    optional_seq_text, percent_text, signed_text,
};

verus! {

/// Line above and below a reading.
pub const LINE_BOLD: &'static str =
    "==============================================================";

/// Line between parts of a report.
pub const LINE_THIN: &'static str =
    "--------------------------------------------------------------";

/// What the gateway does with its buzzer.
#[derive(Debug, Clone, Copy, PartialEq, Eq, Structural)]
pub enum BuzzerAction {
    Unchanged,
    On,
    Off,
}

impl BuzzerAction {
    pub open spec fn spec_label(self) -> Seq<char> {
        match self {
            BuzzerAction::Unchanged => "unchanged"@,
            BuzzerAction::On => "ON"@,
            BuzzerAction::Off => "OFF"@,
        }
    }

    /// Name used in logs.
    pub fn label(self) -> (text: &'static str)
        ensures
            text@ == self.spec_label(),
    {
        match self {
            BuzzerAction::Unchanged => "unchanged",
            BuzzerAction::On => "ON",
            BuzzerAction::Off => "OFF",
        }
    }
}

/// A DATA or ALARM that reached the gateway, and what the gateway did.
#[derive(Debug, Clone, Copy, PartialEq, Eq)]
pub struct GatewayRxDataLog {
    pub frame_type: FrameType,
    pub gateway_time_ms: u64,
    pub origin_id: u8,
    pub origin_seq: u16,
    pub via_id: u8,
    pub relay_seq: u16,
    pub hop: u8,
    pub temp_centi_c: i16,
    pub humidity_centi_percent: u16,
    pub alarm: bool,
    pub ack_seq: Option<u16>,
    pub buzzer_action: BuzzerAction,
    pub origin_seq_gap: Option<u16>,
}

/// What the gateway counts. A counter that has reached its limit stays there.
#[derive(Debug, Clone, Copy, PartialEq, Eq)]
pub struct GatewayStats {
    pub rx_data: u32,
    pub rx_alarm: u32,
    pub tx_ack: u32,
    pub slot_violations: u32,
    pub origin_seq_gap_total: u32,
    pub last_origin_seq: Option<u16>,
    pub tx_sync: u32,
    pub last_tx_sync_seq: u16,
}

/// A counter after `more` events.
pub open spec fn counted(counter: u32, more: int) -> u32 {
    if counter + more > u32::MAX {
        u32::MAX
    } else {
        (counter + more) as u32
    }
}

/// How many origin sequence numbers were passed over between two DATA or ALARM
/// that arrived one after the other; `None` where none was.
pub open spec fn origin_gap(last: Option<u16>, origin_seq: u16) -> Option<u16> {
    match last {
        Some(last_seq) => {
            let steps = (origin_seq - last_seq) % 0x1_0000;
            if steps > 1 {
                Some((steps - 1) as u16)
            } else {
                None
            }
        },
        None => None,
    }
}

impl GatewayStats {
    pub open spec fn spec_new() -> GatewayStats {
        GatewayStats {
            rx_data: 0,
            rx_alarm: 0,
            tx_ack: 0,
            slot_violations: 0,
            origin_seq_gap_total: 0,
            last_origin_seq: None,
            tx_sync: 0,
            last_tx_sync_seq: 0,
        }
    }

    /// Nothing counted yet.
    #[verifier::when_used_as_spec(spec_new)]
    pub fn new() -> (stats: GatewayStats)
        ensures
            stats == Self::spec_new(),
    {
        GatewayStats {
            rx_data: 0,
            rx_alarm: 0,
            tx_ack: 0,
            slot_violations: 0,
            origin_seq_gap_total: 0,
            last_origin_seq: None,
            tx_sync: 0,
            last_tx_sync_seq: 0,
        }
    }

    /// With one more frame that was dropped for its slot.
    pub open spec fn with_slot_violation(self) -> GatewayStats {
        GatewayStats { slot_violations: counted(self.slot_violations, 1), ..self }
    }

    /// With one more SYNC that was sent.
    pub open spec fn with_sync(self, sync_seq: u16) -> GatewayStats {
        GatewayStats { tx_sync: counted(self.tx_sync, 1), last_tx_sync_seq: sync_seq, ..self }
    }

    /// With one more frame of this type that arrived.
    pub open spec fn with_rx_data(
        self,
        frame_type: FrameType,
        origin_seq: u16,
        ack_sent: bool,
    ) -> GatewayStats {
        GatewayStats {
            rx_data: counted(
                self.rx_data,
                if frame_type == FrameType::Data {
                    1
                } else {
                    0
                },
            ),
            rx_alarm: counted(
                self.rx_alarm,
                if frame_type == FrameType::Alarm {
                    1
                } else {
                    0
                },
            ),
            tx_ack: counted(
                self.tx_ack,
                if ack_sent {
                    1
                } else {
                    0
                },
            ),
            origin_seq_gap_total: counted(
                self.origin_seq_gap_total,
                match origin_gap(self.last_origin_seq, origin_seq) {
                    Some(gap) => gap as int,
                    None => 0,
                },
            ),
            last_origin_seq: Some(origin_seq),
            ..self
        }
    }

    /// Count a frame that was dropped because its sender did not own its slot.
    pub fn record_slot_violation(&mut self)
        ensures
            *final(self) == old(self).with_slot_violation(),
    {
        self.slot_violations = self.slot_violations.saturating_add(1);
    }

    /// Count a SYNC that was sent.
    pub fn mark_sync_sent(&mut self, sync_seq: u16)
        ensures
            *final(self) == old(self).with_sync(sync_seq),
    {
        self.tx_sync = self.tx_sync.saturating_add(1);
        self.last_tx_sync_seq = sync_seq;
    }

    /// Count a DATA or ALARM that arrived, and return how many were lost before
    /// it.
    pub fn record_rx_data(&mut self, frame_type: FrameType, origin_seq: u16, ack_sent: bool) -> (gap:
        Option<u16>)
        ensures
            *final(self) == old(self).with_rx_data(frame_type, origin_seq, ack_sent),
            gap == origin_gap(old(self).last_origin_seq, origin_seq),
    {
        match frame_type {
            FrameType::Data => {
                self.rx_data = self.rx_data.saturating_add(1);
            },
            FrameType::Alarm => {
                self.rx_alarm = self.rx_alarm.saturating_add(1);
            },
            _ => {},
        }
        if ack_sent {
            self.tx_ack = self.tx_ack.saturating_add(1);
        }
        let origin_seq_gap = match self.last_origin_seq {
            Some(last_seq) => {
                let steps: u16 = origin_seq.wrapping_sub(last_seq);
                if steps > 1 {
                    Some(steps - 1)
                } else {
                    None
                }
            },
            None => None,
        };
        if let Some(gap) = origin_seq_gap {
            self.origin_seq_gap_total = self.origin_seq_gap_total.saturating_add(gap as u32);
        }
        self.last_origin_seq = Some(origin_seq);
        origin_seq_gap
    }

    pub open spec fn spec_rx_total(&self) -> u32 {
        ((self.rx_data + self.rx_alarm) % 0x1_0000_0000) as u32
    }

    /// How many DATA and ALARM arrived, modulo 2^32.
    #[verifier::when_used_as_spec(spec_rx_total)]
    pub fn rx_total(&self) -> (total: u32)
        ensures
            total == self.spec_rx_total(),
    {
        self.rx_data.wrapping_add(self.rx_alarm)
    }
}

/// A line that names a number.
pub open spec fn number_line(name: Seq<char>, n: nat) -> Seq<char> {
    text::line(name + text::decimal(n))
}

/// A line that names a number.
fn number_line_text(name: &str, n: u64) -> (out: String)
    ensures
        out@ == number_line(name@, n as nat),
{
    line_text(String::from_str(name).concat(decimal_text(n).as_str()).as_str())
}

/// Which node a reading came from or through: `name`, the node's identifier,
/// `kind`, and a sequence number.
pub open spec fn node_line(name: Seq<char>, id: u8, kind: Seq<char>, seq: u16) -> Seq<char> {
    text::line(name + "node "@ + text::decimal(id as nat) + kind + text::decimal(seq as nat))
}

/// Which node a reading came from or through.
fn node_line_text(name: &str, id: u8, kind: &str, seq: u16) -> (out: String)
    ensures
        out@ == node_line(name@, id, kind@, seq),
{
    let text = String::from_str(name).concat("node ").concat(
        decimal_text(id as u64).as_str(),
    ).concat(kind).concat(decimal_text(seq as u64).as_str());
    line_text(text.as_str())
}

/// How the link did: the gap before a reading, if there is one.
pub open spec fn link_line(gap: Option<u16>) -> Seq<char> {
    match gap {
        Some(gap) => number_line(
            "link        : via relay, crc ok, origin_seq_gap="@,
            gap as nat,
        ),
        None => text::line("link        : via relay, crc ok"@),
    }
}

/// How the link did.
fn link_line_text(gap: Option<u16>) -> (out: String)
    ensures
        out@ == link_line(gap),
{
    match gap {
        Some(gap) => number_line_text(
            "link        : via relay, crc ok, origin_seq_gap=",
            gap as u64,
        ),
        None => line_text("link        : via relay, crc ok"),
    }
}

/// What the gateway did with a reading.
pub open spec fn action_line(ack_seq: Option<u16>, buzzer_action: BuzzerAction) -> Seq<char> {
    match ack_seq {
        Some(seq) => text::line(
            "action      : tx ACK seq="@ + text::decimal(seq as nat) + ", buzzer "@
                + buzzer_action.spec_label(),
        ),
        None => text::line("action      : buzzer "@ + buzzer_action.spec_label()),
    }
}

/// What the gateway did with a reading.
fn action_line_text(ack_seq: Option<u16>, buzzer_action: BuzzerAction) -> (out: String)
    ensures
        out@ == action_line(ack_seq, buzzer_action),
{
    match ack_seq {
        Some(seq) => line_text(
            String::from_str("action      : tx ACK seq=").concat(
                decimal_text(seq as u64).as_str(),
            ).concat(", buzzer ").concat(buzzer_action.label()).as_str(),
        ),
        None => line_text(
            String::from_str("action      : buzzer ").concat(buzzer_action.label()).as_str(),
        ),
    }
}

/// What the gateway prints for a reading.
pub open spec fn rx_data_lines(event: GatewayRxDataLog) -> Seq<char> {
    text::line(""@) + text::line(LINE_BOLD@) + text::line(
        "[RX "@ + event.frame_type.spec_label() + "] gateway_time="@ + text::clock(
            event.gateway_time_ms,
        ),
    ) + text::line(LINE_THIN@) + node_line(
        "source      : "@,
        event.origin_id,
        " (sensor), seq="@,
        event.origin_seq,
    ) + node_line("via         : "@, event.via_id, " (relay),  seq="@, event.relay_seq)
        + number_line("hop         : "@, event.hop as nat) + text::line(
        "temperature : "@ + text::celsius(event.temp_centi_c),
    ) + text::line("humidity    : "@ + text::percent(event.humidity_centi_percent)) + text::line(
        "alarm       : "@ + (if event.alarm {
            "YES"@
        } else {
            "NO"@
        }),
    ) + link_line(event.origin_seq_gap) + action_line(event.ack_seq, event.buzzer_action) + text::line(
        LINE_BOLD@,
    )
}

/// What the gateway prints for a reading.
pub fn gateway_rx_data_text(event: &GatewayRxDataLog) -> (text: String)
    ensures
        text@ == rx_data_lines(*event),
{
    let mut text = line_text("");
    text.append(line_text(LINE_BOLD).as_str());
    text.append(
        line_text(
            String::from_str("[RX ").concat(event.frame_type.label()).concat(
                "] gateway_time=",
            ).concat(clock_text(event.gateway_time_ms).as_str()).as_str(),
        ).as_str(),
    );
    text.append(line_text(LINE_THIN).as_str());
    text.append(
        node_line_text(
            "source      : ",
            event.origin_id,
            " (sensor), seq=",
            event.origin_seq,
        ).as_str(),
    );
    text.append(
        node_line_text(
            "via         : ",
            event.via_id,
            " (relay),  seq=",
            event.relay_seq,
        ).as_str(),
    );
    text.append(number_line_text("hop         : ", event.hop as u64).as_str());
    text.append(
        line_text(
            String::from_str("temperature : ").concat(
                celsius_text(event.temp_centi_c).as_str(),
            ).as_str(),
        ).as_str(),
    );
    text.append(
        line_text(
            String::from_str("humidity    : ").concat(
                percent_text(event.humidity_centi_percent).as_str(),
            ).as_str(),
        ).as_str(),
    );
    let alarm = if event.alarm {
        "YES"
    } else {
        "NO"
    };
    text.append(line_text(String::from_str("alarm       : ").concat(alarm).as_str()).as_str());
    text.append(link_line_text(event.origin_seq_gap).as_str());
    text.append(action_line_text(event.ack_seq, event.buzzer_action).as_str());
    text.append(line_text(LINE_BOLD).as_str());
    text
}

/// What the gateway prints for a HEARTBEAT.
pub open spec fn heartbeat_line(
    frame: FrameView,
    slot_id: u8,
    sync_seq: u16,
    presence_mask: u8,
) -> Seq<char> {
    text::line(
        "[RX HEARTBEAT] from=node "@ + text::decimal(frame.src_id as nat) + " ("@
            + frame.node_role.spec_label() + ") data_slot="@ + text::decimal(slot_id as nat)
            + " hop="@ + text::decimal(frame.hop as nat) + " sync_seq="@ + text::decimal(
            sync_seq as nat,
        ) + " presence=0b"@ + text::binary(presence_mask as nat, 8) + " gateway_time="@
            + text::clock(frame.gateway_time_ms),
    )
}

/// What the gateway prints for a HEARTBEAT.
pub fn gateway_heartbeat_text(frame: &Frame, slot_id: u8, sync_seq: u16, presence_mask: u8) -> (text:
    String)
    ensures
        text@ == heartbeat_line(frame@, slot_id, sync_seq, presence_mask),
{
    let mut text = String::from_str("[RX HEARTBEAT] from=node ");
    text.append(decimal_text(frame.src_id as u64).as_str());
    text.append(" (");
    text.append(frame.node_role.label());
    text.append(") data_slot=");
    text.append(decimal_text(slot_id as u64).as_str());
    text.append(" hop=");
    text.append(decimal_text(frame.hop as u64).as_str());
    text.append(" sync_seq=");
    text.append(decimal_text(sync_seq as u64).as_str());
    text.append(" presence=0b");
    text.append(binary_text(presence_mask as u64, 8).as_str());
    text.append(" gateway_time=");
    text.append(clock_text(frame.gateway_time_ms).as_str());
    line_text(text.as_str())
}

/// What the gateway prints of the other nodes.
pub open spec fn join_status_line(status: GatewayJoinStatus, now_ms: u64) -> Seq<char> {
    text::line(
        "[JOIN STATUS] gateway_time="@ + text::clock(now_ms) + " relay="@
            + status.relay.spec_label() + " last_seen="@ + text::last_seen(
            status.relay_last_seen_ms,
        ) + " sensor="@ + status.sensor.spec_label() + " via=relay last_seen="@ + text::last_seen(
            status.sensor_last_seen_ms,
        ),
    )
}

/// What the gateway prints of the other nodes.
pub fn gateway_join_status_text(status: &GatewayJoinStatus, now_ms: u64) -> (text: String)
    ensures
        text@ == join_status_line(*status, now_ms),
{
    let mut text = String::from_str("[JOIN STATUS] gateway_time=");
    text.append(clock_text(now_ms).as_str());
    text.append(" relay=");
    text.append(status.relay.label());
    text.append(" last_seen=");
    text.append(last_seen_text(status.relay_last_seen_ms).as_str());
    text.append(" sensor=");
    text.append(status.sensor.label());
    text.append(" via=relay last_seen=");
    text.append(last_seen_text(status.sensor_last_seen_ms).as_str());
    line_text(text.as_str())
}

/// What the gateway prints of its counters and its clock.
pub open spec fn stats_lines(stats: GatewayStats, sync: TimeSync, uptime_ms: u64) -> Seq<char> {
    text::line(LINE_THIN@) + text::line(
        "[NET STATS] uptime="@ + text::clock(uptime_ms) + " rx_data="@ + text::decimal(
            stats.rx_data as nat,
        ) + " rx_alarm="@ + text::decimal(stats.rx_alarm as nat) + " tx_ack="@ + text::decimal(
            stats.tx_ack as nat,
        ) + " origin_seq_gap_total="@ + text::decimal(stats.origin_seq_gap_total as nat)
            + " last_sync="@ + text::decimal(stats.last_tx_sync_seq as nat) + " offset="@
            + text::signed(sync.offset_ms as int) + "ms drift="@ + text::signed(
            sync.offset_delta_ms as int,
        ) + "ms"@,
    ) + text::line(
        "sync       : tx_count="@ + text::decimal(stats.tx_sync as nat) + " last_tx_sync_seq="@
            + text::decimal(stats.last_tx_sync_seq as nat),
    ) + text::line(
        "traffic    : rx_total="@ + text::decimal(stats.rx_total() as nat) + " data="@
            + text::decimal(stats.rx_data as nat) + " alarm="@ + text::decimal(
            stats.rx_alarm as nat,
        ) + " tx_ack="@ + text::decimal(stats.tx_ack as nat),
    ) + text::line(
        "link       : slot_violations="@ + text::decimal(stats.slot_violations as nat)
            + " origin_seq_gap_total="@ + text::decimal(stats.origin_seq_gap_total as nat)
            + " last_origin_seq="@ + text::optional_seq(stats.last_origin_seq),
    ) + text::line(LINE_THIN@)
}

/// What the gateway prints of its counters and its clock.
pub fn gateway_stats_text(stats: &GatewayStats, sync: TimeSync, uptime_ms: u64) -> (text: String)
    ensures
        text@ == stats_lines(*stats, sync, uptime_ms),
{
    let mut summary = String::from_str("[NET STATS] uptime=");
    summary.append(clock_text(uptime_ms).as_str());
    summary.append(" rx_data=");
    summary.append(decimal_text(stats.rx_data as u64).as_str());
    summary.append(" rx_alarm=");
    summary.append(decimal_text(stats.rx_alarm as u64).as_str());
    summary.append(" tx_ack=");
    summary.append(decimal_text(stats.tx_ack as u64).as_str());
    summary.append(" origin_seq_gap_total=");
    summary.append(decimal_text(stats.origin_seq_gap_total as u64).as_str());
    summary.append(" last_sync=");
    summary.append(decimal_text(stats.last_tx_sync_seq as u64).as_str());
    summary.append(" offset=");
    summary.append(signed_text(sync.offset_ms).as_str());
    summary.append("ms drift=");
    summary.append(signed_text(sync.offset_delta_ms).as_str());
    summary.append("ms");
    let mut broadcast = String::from_str("sync       : tx_count=");
    broadcast.append(decimal_text(stats.tx_sync as u64).as_str());
    broadcast.append(" last_tx_sync_seq=");
    broadcast.append(decimal_text(stats.last_tx_sync_seq as u64).as_str());
    let mut traffic = String::from_str("traffic    : rx_total=");
    traffic.append(decimal_text(stats.rx_total() as u64).as_str());
    traffic.append(" data=");
    traffic.append(decimal_text(stats.rx_data as u64).as_str());
    traffic.append(" alarm=");
    traffic.append(decimal_text(stats.rx_alarm as u64).as_str());
    traffic.append(" tx_ack=");
    traffic.append(decimal_text(stats.tx_ack as u64).as_str());
    let mut link = String::from_str("link       : slot_violations=");
    link.append(decimal_text(stats.slot_violations as u64).as_str());
    link.append(" origin_seq_gap_total=");
    link.append(decimal_text(stats.origin_seq_gap_total as u64).as_str());
    link.append(" last_origin_seq=");
    link.append(optional_seq_text(stats.last_origin_seq).as_str());
    let mut text = line_text(LINE_THIN);
    text.append(line_text(summary.as_str()).as_str());
    text.append(line_text(broadcast.as_str()).as_str());
    text.append(line_text(traffic.as_str()).as_str());
    text.append(line_text(link.as_str()).as_str());
    text.append(line_text(LINE_THIN).as_str());
    text
}

/// Gap accounting is exact: where the sender numbers its readings one after the
/// other, the gap is the number of readings that were lost between two that
/// arrived.
pub proof fn law_gap_is_number_lost(last_seq: u16, lost: u16)
    requires
        lost < u16::MAX,
    ensures
        origin_gap(Some(last_seq), ((last_seq + 1 + lost) % 0x1_0000) as u16) == (if lost == 0 {
            None
        } else {
            Some(lost)
        }),
{
}

/// A reading that is counted twice in a row leaves the gap total as it is.
pub proof fn law_repeat_is_no_gap(stats: GatewayStats, frame_type: FrameType, origin_seq: u16)
    ensures
        ({
            let once = stats.with_rx_data(frame_type, origin_seq, false);
            once.with_rx_data(frame_type, origin_seq, false).origin_seq_gap_total
                == once.origin_seq_gap_total
        }),
{
}

/// A DATA or ALARM that arrived adds one to the counter of its type, one to the ACKs
/// if one was sent, and the readings that are missing since the last one to the
/// total. Counters stay at their limit. All else stays.
pub proof fn law_arrivals_are_counted(
    stats: GatewayStats,
    frame_type: FrameType,
    origin_seq: u16,
    ack_sent: bool,
)
    ensures
        ({
            let after = stats.with_rx_data(frame_type, origin_seq, ack_sent);
            let step = |counter: u32, more: int|
                if counter + more > 0xffff_ffff {
                    0xffff_ffffint
                } else {
                    counter + more
                };
            let missing = match stats.last_origin_seq {
                Some(last_seq) if origin_seq != last_seq => (origin_seq - last_seq - 1)
                    % 0x1_0000,
                _ => 0,
            };
            &&& after.rx_data == step(
                stats.rx_data,
                if frame_type == FrameType::Data {
                    1
                } else {
                    0
                },
            )
            &&& after.rx_alarm == step(
                stats.rx_alarm,
                if frame_type == FrameType::Alarm {
                    1
                } else {
                    0
                },
            )
            &&& after.tx_ack == step(
                stats.tx_ack,
                if ack_sent {
                    1
                } else {
                    0
                },
            )
            &&& after.origin_seq_gap_total == step(stats.origin_seq_gap_total, missing)
            &&& after.last_origin_seq == Some(origin_seq)
            &&& after.slot_violations == stats.slot_violations
            &&& after.tx_sync == stats.tx_sync
            &&& after.last_tx_sync_seq == stats.last_tx_sync_seq
            &&& origin_gap(stats.last_origin_seq, origin_seq) == (if missing > 0 {
                Some(missing as u16)
            } else {
                None
            })
        }),
{
}

/// A frame that was dropped for its slot, and a SYNC that was sent, are counted on
/// their own; the total of readings is the sum of both kinds.
pub proof fn law_other_events_are_counted(stats: GatewayStats, sync_seq: u16)
    ensures
        stats.with_slot_violation() == (GatewayStats {
            slot_violations: if stats.slot_violations == 0xffff_ffff {
                0xffff_ffff
            } else {
                (stats.slot_violations + 1) as u32
            },
            ..stats
        }),
        stats.with_sync(sync_seq) == (GatewayStats {
            tx_sync: if stats.tx_sync == 0xffff_ffff {
                0xffff_ffff
            } else {
                (stats.tx_sync + 1) as u32
            },
            last_tx_sync_seq: sync_seq,
            ..stats
        }),
        stats.rx_data + stats.rx_alarm <= 0xffff_ffff ==> stats.rx_total() == stats.rx_data
            + stats.rx_alarm,
{
}

} // verus!
