//! Names, packets and routing changes of the global data plane.

use vstd::prelude::*;

verus! {

/// The address of a topic or of an endpoint.
#[derive(Debug, Clone, Copy)]
pub struct GDPName(pub [u8; 4]);

impl PartialEq for GDPName {
    fn eq(&self, other: &Self) -> (r: bool) {
        let r = self.0[0] == other.0[0] && self.0[1] == other.0[1] && self.0[2] == other.0[2]
            && self.0[3] == other.0[3];
        assert(r == (self.0@ =~= other.0@));
        assert(r ==> self.0 =~= other.0);
        r
    }
}

impl vstd::std_specs::cmp::PartialEqSpecImpl for GDPName {
    open spec fn obeys_eq_spec() -> bool {
        true
    }

    open spec fn eq_spec(&self, other: &Self) -> bool {
        *self == *other
    }
}

/// What a packet asks of the node that receives it.
#[derive(Debug, Clone, Copy, PartialEq, Eq, Structural)]
pub enum GdpAction {
    /// Carry the payload on to the named address.
    Forward,
    /// Anything else: name resolution, advertisements and the like.
    Other,
}

/// A received packet, as far as services look into it.
#[derive(Debug, Clone)]
pub struct Packet {
    pub action: GdpAction,
    pub gdpname: GDPName,
    pub payload: Option<Vec<u8>>,
}

/// A packet to forward: a payload with its destination, its source and the text whose hash
/// identifies it.
#[derive(Debug, Clone)]
pub struct ForwardPacket {
    pub destination: GDPName,
    pub source: GDPName,
    pub payload: Vec<u8>,
    pub guid_text: String,
}

impl ForwardPacket {
    /// How the packet arrives at its destination.
    pub open spec fn delivered(self, received: Packet) -> bool {
        &&& received.action == GdpAction::Forward
        &&& received.gdpname == self.destination
        &&& received.payload matches Some(payload) && payload@ == self.payload@
    }
}

/// What a routing change does to the entry of its topic.
#[derive(Debug, Clone, Copy, PartialEq, Eq, Structural)]
pub enum FibChangeAction {
    /// Adds a destination for packets.
    ADD,
    /// Takes the topic out of service.
    DELETE,
    /// Puts the topic back into service.
    RESUME,
    /// Adds a destination for responses.
    RESPONSE,
}

/// The end of a topic's bridge that receives packets.
#[derive(Debug, Clone, Copy, PartialEq, Eq, Structural)]
pub enum Destination {
    /// The peer, over the data channel.
    Rtc,
    /// The local ROS endpoint.
    Ros,
}

/// A change of the forwarding table for one topic.
#[derive(Debug, Clone, Copy, PartialEq)]
pub struct FibStateChange {
    pub action: FibChangeAction,
    pub topic_gdp_name: GDPName,
    pub forward_destination: Option<Destination>,
}

} // verus!
