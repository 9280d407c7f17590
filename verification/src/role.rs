//! Node roles and the fixed identifiers of the demo topology.
//!
//! The topology is a line: sensor to relay to gateway. A firmware image is
//! built for exactly one role.

use vstd::prelude::*;

use crate::error::{AppError, AppResult};

verus! {

/// Network identifier written into every protocol frame.
pub const NET_ID: u16 = 0x4331;

/// Broadcast destination accepted by every node.
pub const BROADCAST_ID: u8 = 0xff;

/// Node identifier of the gateway.
pub const GATEWAY_ID: u8 = 1;

/// Node identifier of the relay.
pub const RELAY_ID: u8 = 2;

/// Node identifier of the sensor.
pub const SENSOR_ID: u8 = 3;

/// Zone identifier written into every frame.
pub const DEMO_ZONE_ID: u8 = 1;

/// Role of a node in the three-node topology.
#[derive(Debug, Clone, Copy, PartialEq, Eq, Structural)]
pub enum NodeRole {
    /// Root node and time authority.
    Gateway,
    /// Middle hop between the sensor and the gateway.
    Relay,
    /// Leaf node that produces environment samples.
    Sensor,
}

impl NodeRole {
    /// The role whose wire value is `value`, if there is one.
    pub open spec fn spec_from_u8(value: u8) -> Option<NodeRole> {
        if value == GATEWAY_ID {
            Some(NodeRole::Gateway)
        } else if value == RELAY_ID {
            Some(NodeRole::Relay)
        } else if value == SENSOR_ID {
            Some(NodeRole::Sensor)
        } else {
            None
        }
    }

    /// Decode the compact wire value used in frame headers.
    #[verifier::when_used_as_spec(spec_from_u8)]
    pub fn from_u8(value: u8) -> (role: Option<NodeRole>)
        ensures
            role == Self::spec_from_u8(value),
    {
        match value {
            1 => Some(NodeRole::Gateway),
            2 => Some(NodeRole::Relay),
            3 => Some(NodeRole::Sensor),
            _ => None,
        }
    }

    pub open spec fn spec_node_id(self) -> u8 {
        match self {
            NodeRole::Gateway => GATEWAY_ID,
            NodeRole::Relay => RELAY_ID,
            NodeRole::Sensor => SENSOR_ID,
        }
    }

    /// Fixed node identifier of this role, which is also its wire value.
    #[verifier::when_used_as_spec(spec_node_id)]
    pub fn node_id(self) -> (id: u8)
        ensures
            id == self.spec_node_id(),
    {
        match self {
            NodeRole::Gateway => GATEWAY_ID,
            NodeRole::Relay => RELAY_ID,
            NodeRole::Sensor => SENSOR_ID,
        }
    }

    pub open spec fn spec_parent_id(self) -> Option<u8> {
        match self {
            NodeRole::Gateway => None,
            NodeRole::Relay => Some(GATEWAY_ID),
            NodeRole::Sensor => Some(RELAY_ID),
        }
    }

    /// Preferred upstream parent.
    #[verifier::when_used_as_spec(spec_parent_id)]
    pub fn parent_id(self) -> (parent: Option<u8>)
        ensures
            parent == self.spec_parent_id(),
    {
        match self {
            NodeRole::Gateway => None,
            NodeRole::Relay => Some(GATEWAY_ID),
            NodeRole::Sensor => Some(RELAY_ID),
        }
    }

    pub open spec fn spec_default_hop(self) -> u8 {
        match self {
            NodeRole::Gateway => 0,
            NodeRole::Relay => 1,
            NodeRole::Sensor => 2,
        }
    }

    /// Route hop count used before a JOIN_ACK arrives.
    #[verifier::when_used_as_spec(spec_default_hop)]
    pub fn default_hop(self) -> (hop: u8)
        ensures
            hop == self.spec_default_hop(),
    {
        match self {
            NodeRole::Gateway => 0,
            NodeRole::Relay => 1,
            NodeRole::Sensor => 2,
        }
    }

    pub open spec fn spec_default_slot(self) -> u8 {
        match self {
            NodeRole::Gateway => 0,
            NodeRole::Sensor => 2,
            NodeRole::Relay => 3,
        }
    }

    /// TDMA data slot used before a JOIN_ACK arrives.
    #[verifier::when_used_as_spec(spec_default_slot)]
    pub fn default_slot(self) -> (slot: u8)
        ensures
            slot == self.spec_default_slot(),
    {
        match self {
            NodeRole::Gateway => 0,
            NodeRole::Sensor => 2,
            NodeRole::Relay => 3,
        }
    }

    pub open spec fn spec_label(self) -> Seq<char> {
        match self {
            NodeRole::Gateway => "gateway"@,
            NodeRole::Relay => "relay"@,
            NodeRole::Sensor => "sensor"@,
        }
    }

    /// Lowercase role name used in logs.
    pub fn label(self) -> (text: &'static str)
        ensures
            text@ == self.spec_label(),
    {
        match self {
            NodeRole::Gateway => "gateway",
            NodeRole::Relay => "relay",
            NodeRole::Sensor => "sensor",
        }
    }
}

/// The role that a firmware image runs, given which role switches it was built
/// with: exactly one of the three has to be on.
pub fn select_role(gateway: bool, relay: bool, sensor: bool) -> (role: AppResult<NodeRole>)
    ensures
        gateway && !relay && !sensor ==> role == AppResult::Ok(NodeRole::Gateway),
        relay && !gateway && !sensor ==> role == AppResult::Ok(NodeRole::Relay),
        sensor && !gateway && !relay ==> role == AppResult::Ok(NodeRole::Sensor),
        role is Err <==> !((gateway && !relay && !sensor) || (relay && !gateway && !sensor) || (
        sensor && !gateway && !relay)),
        role is Err ==> role == AppResult::<NodeRole>::Err(AppError::InvalidRoleFeatureSet),
{
    match (gateway, relay, sensor) {
        (true, false, false) => Ok(NodeRole::Gateway),
        (false, true, false) => Ok(NodeRole::Relay),
        (false, false, true) => Ok(NodeRole::Sensor),
        _ => Err(AppError::InvalidRoleFeatureSet),
    }
}

/// A role is recovered from its wire value, and no other value stands for it.
pub proof fn law_role_wire_value(role: NodeRole, value: u8)
    ensures
        NodeRole::from_u8(role.node_id()) == Some(role),
        NodeRole::from_u8(value) == Some(role) <==> value == role.node_id(),
{
}

/// Each child's parent is one hop nearer to the gateway.
pub proof fn law_parent_is_one_hop_nearer(child: NodeRole, parent: NodeRole)
    requires
        child.parent_id() == Some(parent.node_id()),
    ensures
        child.default_hop() == parent.default_hop() + 1,
{
}

} // verus!
