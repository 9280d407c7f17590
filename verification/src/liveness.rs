//! Which nodes are online, as heartbeats and relayed frames show it.

use vstd::prelude::*;

use crate::protocol;
use crate::protocol::{
    heartbeat_presence_contains, HEARTBEAT_PRESENCE_RELAY, HEARTBEAT_PRESENCE_SENSOR,
};
use crate::role::NodeRole;
use crate::tdma::TdmaSchedule;

verus! {

pub open spec fn spec_heartbeat_timeout_ms(schedule: TdmaSchedule) -> u64 {
    (schedule.superframe_ms + schedule.active_ms) as u64
}

/// How long a node counts as online after it was last seen: a superframe and an
/// active window.
#[verifier::when_used_as_spec(spec_heartbeat_timeout_ms)]
pub fn heartbeat_timeout_ms(schedule: TdmaSchedule) -> (timeout: u64)
    ensures
        timeout == spec_heartbeat_timeout_ms(schedule),
{
    schedule.superframe_ms as u64 + schedule.active_ms as u64
}

/// A node that was last seen at `last_seen` counts as online at `now_ms`.
pub open spec fn seen_recently(
    last_seen: Option<u64>,
    now_ms: u64,
    schedule: TdmaSchedule,
) -> bool {
    last_seen matches Some(seen_ms) && now_ms - seen_ms <= heartbeat_timeout_ms(schedule)
}

/// Whether a node that was last seen at `last_seen` counts as online.
fn is_recent(last_seen: Option<u64>, now_ms: u64, schedule: TdmaSchedule) -> (recent: bool)
    ensures
        recent == seen_recently(last_seen, now_ms, schedule),
{
    match last_seen {
        Some(seen_ms) => now_ms.saturating_sub(seen_ms) <= heartbeat_timeout_ms(schedule),
        None => false,
    }
}

/// What the relay knows of the sensor: when it was last seen.
#[derive(Debug, Clone, Copy, PartialEq, Eq)]
pub struct RelayHeartbeatState {
    sensor_last_seen_ms: Option<u64>,
}

impl View for RelayHeartbeatState {
    type V = Option<u64>;

    /// When the sensor was last seen.
    closed spec fn view(&self) -> Option<u64> {
        self.sensor_last_seen_ms
    }
}

/// The presence mask that a relay reports: itself, and the sensor while it
/// counts as online.
pub open spec fn relay_presence(
    sensor_last_seen: Option<u64>,
    now_ms: u64,
    schedule: TdmaSchedule,
) -> u8 {
    if seen_recently(sensor_last_seen, now_ms, schedule) {
        HEARTBEAT_PRESENCE_RELAY | HEARTBEAT_PRESENCE_SENSOR
    } else {
        HEARTBEAT_PRESENCE_RELAY
    }
}

impl RelayHeartbeatState {
    /// The sensor was never seen.
    pub fn new() -> (state: RelayHeartbeatState)
        ensures
            state@ is None,
    {
        RelayHeartbeatState { sensor_last_seen_ms: None }
    }

    /// The sensor was seen at `now_ms`.
    pub fn record_sensor_seen(&mut self, now_ms: u64)
        ensures
            final(self)@ == Some(now_ms),
    {
        self.sensor_last_seen_ms = Some(now_ms);
    }

    /// A heartbeat of the sensor arrived at `now_ms`.
    pub fn record_sensor_heartbeat(&mut self, now_ms: u64)
        ensures
            final(self)@ == Some(now_ms),
    {
        self.record_sensor_seen(now_ms);
    }

    /// Whether the sensor counts as online.
    pub fn sensor_online(&self, now_ms: u64, schedule: TdmaSchedule) -> (online: bool)
        ensures
            online == seen_recently(self@, now_ms, schedule),
    {
        is_recent(self.sensor_last_seen_ms, now_ms, schedule)
    }

    /// The presence mask of the relay's next heartbeat.
    pub fn presence_mask(&self, now_ms: u64, schedule: TdmaSchedule) -> (mask: u8)
        ensures
            mask == relay_presence(self@, now_ms, schedule),
    {
        let mut mask: u8 = HEARTBEAT_PRESENCE_RELAY;
        if self.sensor_online(now_ms, schedule) {
            mask = mask | HEARTBEAT_PRESENCE_SENSOR;
        }
        mask
    }
}

impl Default for RelayHeartbeatState {
    fn default() -> (state: RelayHeartbeatState)
        ensures
            state@ is None,
    {
        RelayHeartbeatState::new()
    }
}

/// What the gateway knows of another node.
#[derive(Debug, Clone, Copy, PartialEq, Eq, Structural)]
pub enum GatewayNodeLiveness {
    Online,
    Offline,
    Unknown,
}

impl GatewayNodeLiveness {
    pub open spec fn spec_label(self) -> Seq<char> {
        match self {
            GatewayNodeLiveness::Online => "ONLINE"@,
            GatewayNodeLiveness::Offline => "OFFLINE"@,
            GatewayNodeLiveness::Unknown => "UNKNOWN"@,
        }
    }

    /// Uppercase name used in logs.
    pub fn label(self) -> (text: &'static str)
        ensures
            text@ == self.spec_label(),
    {
        match self {
            GatewayNodeLiveness::Online => "ONLINE",
            GatewayNodeLiveness::Offline => "OFFLINE",
            GatewayNodeLiveness::Unknown => "UNKNOWN",
        }
    }
}

/// What the gateway knows of the two other nodes.
#[derive(Debug, Clone, Copy, PartialEq, Eq)]
pub struct GatewayJoinStatus {
    pub relay: GatewayNodeLiveness,
    pub sensor: GatewayNodeLiveness,
    pub relay_last_seen_ms: Option<u64>,
    pub sensor_last_seen_ms: Option<u64>,
}

/// The part of a status whose changes are reported.
#[derive(Debug, Clone, Copy, PartialEq, Eq, Structural)]
struct GatewayJoinSnapshot {
    relay: GatewayNodeLiveness,
    sensor: GatewayNodeLiveness,
}

/// When the gateway last saw the other nodes, and what it last reported of them.
#[derive(Debug, Clone, Copy, PartialEq, Eq)]
pub struct GatewayHeartbeatState {
    relay_last_seen_ms: Option<u64>,
    sensor_last_seen_ms: Option<u64>,
    last_reported: GatewayJoinSnapshot,
}

/// What a `GatewayHeartbeatState` holds.
pub struct GatewayHeartbeatView {
    pub relay_last_seen: Option<u64>,
    pub sensor_last_seen: Option<u64>,
    pub reported_relay: GatewayNodeLiveness,
    pub reported_sensor: GatewayNodeLiveness,
}

impl View for GatewayHeartbeatState {
    type V = GatewayHeartbeatView;

    closed spec fn view(&self) -> GatewayHeartbeatView {
        GatewayHeartbeatView {
            relay_last_seen: self.relay_last_seen_ms,
            sensor_last_seen: self.sensor_last_seen_ms,
            reported_relay: self.last_reported.relay,
            reported_sensor: self.last_reported.sensor,
        }
    }
}

impl GatewayHeartbeatView {
    /// Nobody was ever seen, and both nodes count as reported offline.
    pub open spec fn initial() -> GatewayHeartbeatView {
        GatewayHeartbeatView {
            relay_last_seen: None,
            sensor_last_seen: None,
            reported_relay: GatewayNodeLiveness::Offline,
            reported_sensor: GatewayNodeLiveness::Offline,
        }
    }

    /// The status at a time. The sensor is reached through the relay, so without
    /// the relay nothing is known of a sensor that was seen before.
    pub open spec fn status(self, now_ms: u64, schedule: TdmaSchedule) -> GatewayJoinStatus {
        let relay_online = seen_recently(self.relay_last_seen, now_ms, schedule);
        GatewayJoinStatus {
            relay: if relay_online {
                GatewayNodeLiveness::Online
            } else {
                GatewayNodeLiveness::Offline
            },
            sensor: if relay_online {
                if seen_recently(self.sensor_last_seen, now_ms, schedule) {
                    GatewayNodeLiveness::Online
                } else {
                    GatewayNodeLiveness::Offline
                }
            } else if self.sensor_last_seen is Some {
                GatewayNodeLiveness::Unknown
            } else {
                GatewayNodeLiveness::Offline
            },
            relay_last_seen_ms: self.relay_last_seen,
            sensor_last_seen_ms: self.sensor_last_seen,
        }
    }

    /// The status differs from what was last reported.
    pub open spec fn has_news(self, now_ms: u64, schedule: TdmaSchedule) -> bool {
        let status = self.status(now_ms, schedule);
        status.relay != self.reported_relay || status.sensor != self.reported_sensor
    }

    /// What is handed out as news at a time.
    pub open spec fn news(self, now_ms: u64, schedule: TdmaSchedule) -> Option<GatewayJoinStatus> {
        if self.has_news(now_ms, schedule) {
            Some(self.status(now_ms, schedule))
        } else {
            None
        }
    }

    /// The state after the status at a time was reported.
    pub open spec fn reported(self, now_ms: u64, schedule: TdmaSchedule) -> GatewayHeartbeatView {
        let status = self.status(now_ms, schedule);
        GatewayHeartbeatView {
            reported_relay: status.relay,
            reported_sensor: status.sensor,
            ..self
        }
    }

    /// The state after a relay heartbeat: whoever is present in the mask was seen.
    pub open spec fn heartbeat_seen(self, presence_mask: u8, now_ms: u64) -> GatewayHeartbeatView {
        GatewayHeartbeatView {
            relay_last_seen: if presence_mask & protocol::presence_bit(NodeRole::Relay) != 0 {
                Some(now_ms)
            } else {
                self.relay_last_seen
            },
            sensor_last_seen: if presence_mask & protocol::presence_bit(NodeRole::Sensor) != 0 {
                Some(now_ms)
            } else {
                self.sensor_last_seen
            },
            ..self
        }
    }

    /// The state after a frame of the sensor came through the relay: both were
    /// seen.
    pub open spec fn relayed_frame_seen(self, now_ms: u64) -> GatewayHeartbeatView {
        GatewayHeartbeatView {
            relay_last_seen: Some(now_ms),
            sensor_last_seen: Some(now_ms),
            ..self
        }
    }
}

impl GatewayHeartbeatState {
    /// Nobody was seen yet.
    pub fn new() -> (state: GatewayHeartbeatState)
        ensures
            state@ == GatewayHeartbeatView::initial(),
    {
        GatewayHeartbeatState {
            relay_last_seen_ms: None,
            sensor_last_seen_ms: None,
            last_reported: GatewayJoinSnapshot {
                relay: GatewayNodeLiveness::Offline,
                sensor: GatewayNodeLiveness::Offline,
            },
        }
    }

    /// Take a relay heartbeat into account and return the status if it changed.
    pub fn record_relay_heartbeat(
        &mut self,
        presence_mask: u8,
        now_ms: u64,
        schedule: TdmaSchedule,
    ) -> (news: Option<GatewayJoinStatus>)
        ensures
            final(self)@ == old(self)@.heartbeat_seen(presence_mask, now_ms).reported(
                now_ms,
                schedule,
            ),
            news == old(self)@.heartbeat_seen(presence_mask, now_ms).news(now_ms, schedule),
    {
        if heartbeat_presence_contains(presence_mask, NodeRole::Relay) {
            self.relay_last_seen_ms = Some(now_ms);
        }
        if heartbeat_presence_contains(presence_mask, NodeRole::Sensor) {
            self.sensor_last_seen_ms = Some(now_ms);
        }
        self.take_status_change(now_ms, schedule)
    }

    /// Take a frame of the sensor that came through the relay into account and
    /// return the status if it changed.
    pub fn record_relayed_sensor_frame(&mut self, now_ms: u64, schedule: TdmaSchedule) -> (news:
        Option<GatewayJoinStatus>)
        ensures
            final(self)@ == old(self)@.relayed_frame_seen(now_ms).reported(now_ms, schedule),
            news == old(self)@.relayed_frame_seen(now_ms).news(now_ms, schedule),
    {
        self.relay_last_seen_ms = Some(now_ms);
        self.sensor_last_seen_ms = Some(now_ms);
        self.take_status_change(now_ms, schedule)
    }

    /// Return the status if it changed with time alone.
    pub fn poll_status_change(&mut self, now_ms: u64, schedule: TdmaSchedule) -> (news: Option<
        GatewayJoinStatus,
    >)
        ensures
            final(self)@ == old(self)@.reported(now_ms, schedule),
            news == old(self)@.news(now_ms, schedule),
    {
        self.take_status_change(now_ms, schedule)
    }

    /// The status at a time.
    pub fn status(&self, now_ms: u64, schedule: TdmaSchedule) -> (status: GatewayJoinStatus)
        ensures
            status == self@.status(now_ms, schedule),
    {
        let relay_online = is_recent(self.relay_last_seen_ms, now_ms, schedule);
        let sensor_recent = is_recent(self.sensor_last_seen_ms, now_ms, schedule);
        let relay = if relay_online {
            GatewayNodeLiveness::Online
        } else {
            GatewayNodeLiveness::Offline
        };
        let sensor = if sensor_recent && relay_online {
            GatewayNodeLiveness::Online
        } else if !relay_online && self.sensor_last_seen_ms.is_some() {
            GatewayNodeLiveness::Unknown
        } else {
            GatewayNodeLiveness::Offline
        };
        GatewayJoinStatus {
            relay,
            sensor,
            relay_last_seen_ms: self.relay_last_seen_ms,
            sensor_last_seen_ms: self.sensor_last_seen_ms,
        }
    }

    /// Return the status if it differs from the last one returned.
    fn take_status_change(&mut self, now_ms: u64, schedule: TdmaSchedule) -> (news: Option<
        GatewayJoinStatus,
    >)
        ensures
            final(self)@ == old(self)@.reported(now_ms, schedule),
            news == old(self)@.news(now_ms, schedule),
    {
        let status = self.status(now_ms, schedule);
        let snapshot = GatewayJoinSnapshot { relay: status.relay, sensor: status.sensor };
        if snapshot == self.last_reported {
            None
        } else {
            self.last_reported = snapshot;
            Some(status)
        }
    }
}

impl Default for GatewayHeartbeatState {
    fn default() -> (state: GatewayHeartbeatState)
        ensures
            state@ == GatewayHeartbeatView::initial(),
    {
        GatewayHeartbeatState::new()
    }
}

/// A status is reported once: asked again at the same time there is no news.
pub proof fn law_status_is_reported_once(
    state: GatewayHeartbeatView,
    now_ms: u64,
    schedule: TdmaSchedule,
)
    ensures
        !state.reported(now_ms, schedule).has_news(now_ms, schedule),
        state.reported(now_ms, schedule).status(now_ms, schedule) == state.status(now_ms, schedule),
{
}

/// Without the relay the sensor is never taken to be online.
pub proof fn law_sensor_needs_relay(
    state: GatewayHeartbeatView,
    now_ms: u64,
    schedule: TdmaSchedule,
)
    ensures
        state.status(now_ms, schedule).sensor == GatewayNodeLiveness::Online ==> state.status(
            now_ms,
            schedule,
        ).relay == GatewayNodeLiveness::Online,
{
}

/// A frame of the sensor that came through the relay shows both to be online,
/// and they stay so until the timeout has passed.
pub proof fn law_relayed_frame_shows_both_online(
    state: GatewayHeartbeatView,
    seen_ms: u64,
    now_ms: u64,
    schedule: TdmaSchedule,
)
    requires
        seen_ms <= now_ms,
    ensures
        ({
            let status = state.relayed_frame_seen(seen_ms).status(now_ms, schedule);
            if now_ms - seen_ms <= heartbeat_timeout_ms(schedule) {
                status.relay == GatewayNodeLiveness::Online && status.sensor
                    == GatewayNodeLiveness::Online
            } else {
                status.relay == GatewayNodeLiveness::Offline && status.sensor
                    == GatewayNodeLiveness::Unknown
            }
        }),
{
}

/// What a relay reports as present, the gateway takes as seen: it learns of the
/// relay with every relay heartbeat, and of the sensor exactly while the relay
/// counts it as online.
pub proof fn law_gateway_learns_from_relay_mask(
    state: GatewayHeartbeatView,
    sensor_last_seen: Option<u64>,
    sent_ms: u64,
    now_ms: u64,
    schedule: TdmaSchedule,
)
    ensures
        ({
            let mask = relay_presence(sensor_last_seen, sent_ms, schedule);
            let after = state.heartbeat_seen(mask, now_ms);
            &&& after.relay_last_seen == Some(now_ms)
            &&& after.sensor_last_seen == if seen_recently(sensor_last_seen, sent_ms, schedule) {
                Some(now_ms)
            } else {
                state.sensor_last_seen
            }
        }),
{
    protocol::law_presence_bits(HEARTBEAT_PRESENCE_RELAY, NodeRole::Sensor, NodeRole::Relay);
    protocol::law_presence_bits(HEARTBEAT_PRESENCE_RELAY, NodeRole::Sensor, NodeRole::Sensor);
    protocol::law_presence_bits(0, NodeRole::Relay, NodeRole::Sensor);
    protocol::law_presence_bits(0, NodeRole::Relay, NodeRole::Relay);
}

/// Whether a node was seen no longer ago than a superframe and an active window,
/// counting a sighting that lies ahead as now.
pub open spec fn is_there(last_seen: Option<u64>, now_ms: u64, schedule: TdmaSchedule) -> bool {
    match last_seen {
        Some(seen_ms) => now_ms <= seen_ms + schedule.superframe_ms + schedule.active_ms,
        None => false,
    }
}

/// The status goes by when relay and sensor were last seen, and says when that was.
/// The relay is online while it was seen lately, and otherwise offline. The sensor
/// is online while both were; without the relay nothing is known of a sensor that
/// was ever seen; else it is offline.
pub proof fn law_status_goes_by_last_sightings(
    state: GatewayHeartbeatView,
    now_ms: u64,
    schedule: TdmaSchedule,
)
    ensures
        ({
            let status = state.status(now_ms, schedule);
            let relay_there = is_there(state.relay_last_seen, now_ms, schedule);
            let sensor_there = is_there(state.sensor_last_seen, now_ms, schedule);
            &&& status.relay_last_seen_ms == state.relay_last_seen
            &&& status.sensor_last_seen_ms == state.sensor_last_seen
            &&& (status.relay == GatewayNodeLiveness::Online) == relay_there
            &&& (status.relay == GatewayNodeLiveness::Offline) == !relay_there
            &&& (status.sensor == GatewayNodeLiveness::Online) == (relay_there && sensor_there)
            &&& (status.sensor == GatewayNodeLiveness::Unknown) == (!relay_there
                && state.sensor_last_seen is Some)
        }),
{
}

/// There is news exactly if relay or sensor stand otherwise than was last reported,
/// and then the news is the status. It counts as reported from then on, and when
/// somebody was last seen does not change with it.
pub proof fn law_news_is_what_changed(
    state: GatewayHeartbeatView,
    now_ms: u64,
    schedule: TdmaSchedule,
)
    ensures
        ({
            let status = state.status(now_ms, schedule);
            let changed = status.relay != state.reported_relay || status.sensor
                != state.reported_sensor;
            &&& changed ==> state.news(now_ms, schedule) == Some(status)
            &&& !changed ==> state.news(now_ms, schedule) is None
            &&& state.reported(now_ms, schedule) == GatewayHeartbeatView {
                relay_last_seen: state.relay_last_seen,
                sensor_last_seen: state.sensor_last_seen,
                reported_relay: status.relay,
                reported_sensor: status.sensor,
            }
        }),
{
}

/// A relay heartbeat sets when those were last seen whom it names, bit 2 for the
/// relay and bit 3 for the sensor, and a relayed frame sets both; nothing else
/// changes with them.
pub proof fn law_sightings_are_noted(
    state: GatewayHeartbeatView,
    presence_mask: u8,
    now_ms: u64,
)
    ensures
        state.heartbeat_seen(presence_mask, now_ms) == (GatewayHeartbeatView {
            relay_last_seen: if presence_mask as int / 4 % 2 == 1 {
                Some(now_ms)
            } else {
                state.relay_last_seen
            },
            sensor_last_seen: if presence_mask as int / 8 % 2 == 1 {
                Some(now_ms)
            } else {
                state.sensor_last_seen
            },
            ..state
        }),
        state.relayed_frame_seen(now_ms) == (GatewayHeartbeatView {
            relay_last_seen: Some(now_ms),
            sensor_last_seen: Some(now_ms),
            ..state
        }),
{
    protocol::law_presence_bits(presence_mask, NodeRole::Relay, NodeRole::Sensor);
    assert((presence_mask & 4u8 != 0) == (presence_mask / 4u8 % 2u8 == 1u8)) by (bit_vector);
    assert((presence_mask & 8u8 != 0) == (presence_mask / 8u8 % 2u8 == 1u8)) by (bit_vector);
}

/// The relay names itself always, and the sensor while it was seen lately.
pub proof fn law_relay_names_who_is_there(
    sensor_last_seen: Option<u64>,
    now_ms: u64,
    schedule: TdmaSchedule,
)
    ensures
        relay_presence(sensor_last_seen, now_ms, schedule) == (if is_there(
            sensor_last_seen,
            now_ms,
            schedule,
        ) {
            12u8
        } else {
            4u8
        }),
        seen_recently(sensor_last_seen, now_ms, schedule) == is_there(
            sensor_last_seen,
            now_ms,
            schedule,
        ),
        heartbeat_timeout_ms(schedule) == schedule.superframe_ms + schedule.active_ms,
{
    assert(4u8 | 8u8 == 12u8) by (bit_vector);
}

} // verus!
