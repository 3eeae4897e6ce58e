use vstd::prelude::*;
use crate::address::{Address, Endpoint, PeerKey};

verus! {

/// Local-network discovery.
#[derive(Debug)]
pub enum MdnsEvent {
    /// Newly found (peer, address) pairs.
    Discovered(Vec<Endpoint>),
    /// Pairs whose time to live ran out.
    Expired(Vec<Endpoint>),
}

/// Identify/handshake exchange.
#[derive(Debug)]
pub enum IdentifyEvent {
    Received { peer: PeerKey, protocol_version: String, agent_version: String },
    Sent { peer: PeerKey },
    Pushed { peer: PeerKey },
    Error { peer: PeerKey },
}

/// One liveness probe on a connection: its round trip in microseconds, or
/// `None` where the probe failed.
#[derive(Debug)]
pub struct PingEvent {
    pub peer: PeerKey,
    pub rtt_micros: Option<u64>,
}

/// Relay client.
#[derive(Debug)]
pub enum RelayEvent {
    ReservationReqAccepted { relay_peer: PeerKey, renewal: bool },
    OutboundCircuitEstablished { relay_peer: PeerKey },
    InboundCircuitEstablished { src_peer: PeerKey },
}

/// Direct-connection upgrade through a relayed connection.
#[derive(Debug)]
pub struct DcutrEvent {
    pub remote_peer: PeerKey,
    pub succeeded: bool,
}

/// Rendezvous client.
#[derive(Debug)]
pub enum RendezvousEvent {
    Discovered { rendezvous_node: PeerKey, registrations: Vec<Endpoint> },
    DiscoverFailed { rendezvous_node: PeerKey, namespace: Option<String> },
    Registered { rendezvous_node: PeerKey, ttl: u64, namespace: String },
    RegisterFailed { rendezvous_node: PeerKey, namespace: String },
    Expired { peer: PeerKey },
}

/// Distributed routing table.
#[derive(Debug)]
pub enum KadEvent {
    InboundRequest,
    OutboundQueryProgressed { id: u64, last: bool },
    RoutingUpdated { peer: PeerKey, is_new_peer: bool, addresses: Vec<Address> },
    UnroutablePeer { peer: PeerKey },
    RoutablePeer { peer: PeerKey, address: Address },
    PendingRoutablePeer { peer: PeerKey, address: Address },
    ModeChanged { server: bool },
}

/// An event of one of the node's protocol modules, or the failure of an
/// outbound dial.
#[derive(Debug)]
pub enum NetworkEvent {
    Dcutr(DcutrEvent),
    Identify(IdentifyEvent),
    Mdns(MdnsEvent),
    Ping(PingEvent),
    Relay(RelayEvent),
    Rzv(RendezvousEvent),
    Kad(KadEvent),
    /// An outbound connection attempt failed; the addresses that were tried.
    DialFailed { peer: Option<PeerKey>, addresses: Vec<Address> },
}

/// The module an event comes from.
#[derive(Debug, Clone, Copy, PartialEq, Eq, Structural)]
pub enum Module {
    HolePunch,
    Identify,
    Discovery,
    Liveness,
    Relay,
    Rendezvous,
    RoutingTable,
    Dialer,
}

impl NetworkEvent {
    pub open spec fn module_of(&self) -> Module {
        match self {
            NetworkEvent::Dcutr(_) => Module::HolePunch,
            NetworkEvent::Identify(_) => Module::Identify,
            NetworkEvent::Mdns(_) => Module::Discovery,
            NetworkEvent::Ping(_) => Module::Liveness,
            NetworkEvent::Relay(_) => Module::Relay,
            NetworkEvent::Rzv(_) => Module::Rendezvous,
            NetworkEvent::Kad(_) => Module::RoutingTable,
            NetworkEvent::DialFailed { .. } => Module::Dialer,
        }
    }

    /// The module this event comes from.
    pub fn module(&self) -> (r: Module)
        ensures
            r == self.module_of(),
    {
        match self {
            NetworkEvent::Dcutr(_) => Module::HolePunch,
            NetworkEvent::Identify(_) => Module::Identify,
            NetworkEvent::Mdns(_) => Module::Discovery,
            NetworkEvent::Ping(_) => Module::Liveness,
            NetworkEvent::Relay(_) => Module::Relay,
            NetworkEvent::Rzv(_) => Module::Rendezvous,
            NetworkEvent::Kad(_) => Module::RoutingTable,
            NetworkEvent::DialFailed { .. } => Module::Dialer,
        }
    }

    /// The (peer, address) pairs that a discovery event reports as newly
    /// found; empty for every other event.
    pub open spec fn discovered(&self) -> Seq<(Seq<u8>, Seq<u8>)> {
        match self {
            NetworkEvent::Mdns(MdnsEvent::Discovered(found)) => found@.map_values(|p: Endpoint| p@),
            _ => Seq::empty(),
        }
    }

    /// The newly found (peer, address) pairs of a discovery event, to be
    /// offered to an outside decision point; `None` for every other event.
    pub fn into_discovered(self) -> (r: Option<Vec<Endpoint>>)
        ensures
            (r is Some) == (self matches NetworkEvent::Mdns(MdnsEvent::Discovered(_))),
            r is Some ==> r.unwrap()@.map_values(|p: Endpoint| p@) == self.discovered(),
            r is Some ==> r.unwrap()@ == self->Mdns_0->Discovered_0@,
    {
        match self {
            NetworkEvent::Mdns(MdnsEvent::Discovered(found)) => Some(found),
            _ => None,
        }
    }

    /// Whether this is a failed dial that tried `addr`.
    pub open spec fn is_dial_failure_for(&self, addr: Seq<u8>) -> bool {
        match self {
            NetworkEvent::DialFailed { addresses, .. } => exists|i: int|
                0 <= i < addresses@.len() && #[trigger] addresses@[i]@ == addr,
            _ => false,
        }
    }
}

} // verus!
