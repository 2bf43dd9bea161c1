//! The messages that cross the node's border, as the node reads and
//! writes them once the bytes are decoded.

use crate::sender::Peer;
use crate::types::{ConnectionID, ServerID, ServerType};
use vstd::prelude::*;

verus! {

/// What the balancer tells this node.
#[derive(Clone, Debug, PartialEq, Eq)]
pub enum BalancerToHandler {
    EstablishingConnection,
    /// The peers to shake hands with.
    Familiarity { storages: Vec<Peer>, handlers: Vec<Peer> },
    /// Stop; anything but zero asks for a restart afterwards.
    Shutdown(u8),
    GenerateMap(String),
    CloseMap,
    Defrost,
}

/// What a storage server tells this node.
#[derive(Clone, Debug, PartialEq, Eq)]
pub enum StorageToHandler {
    /// The sender asks to be accepted: its number, its address, and the
    /// identity under which the balancer knows it.
    Connect(ServerID, String, ConnectionID),
    /// The sender has accepted this node and names the identity to reach
    /// it through.
    ConnectionAccepted(ConnectionID),
    Connected,
    ResourceCreated(u64),
    Resource(u64, Vec<u8>),
}

/// What another handler tells this node.
#[derive(Clone, Debug, PartialEq, Eq)]
pub enum HandlerToHandler {
    Connect(ServerID, String, ConnectionID),
    ConnectionAccepted(ConnectionID),
    Connected,
}

/// A decoded inbound message, by the kind of its sender.
#[derive(Clone, Debug, PartialEq, Eq)]
pub enum Message {
    BalancerToHandler(BalancerToHandler),
    StorageToHandler(StorageToHandler),
    HandlerToHandler(HandlerToHandler),
}

/// What this node tells the balancer.
#[derive(Clone, Copy, Debug, PartialEq, Eq, Structural)]
pub enum HandlerToBalancer {
    ServerStarted,
    ConnectionEstablished,
    FamiliarityFinished,
    StillAlive,
    /// The connection to this peer could not be made.
    ConnectionFailed(ServerType, ConnectionID),
}

impl HandlerToBalancer {
    pub fn connection_failed(server_type: ServerType, connection_id: ConnectionID) -> (message:
        HandlerToBalancer)
        ensures
            message == HandlerToBalancer::ConnectionFailed(server_type, connection_id),
    {
        HandlerToBalancer::ConnectionFailed(server_type, connection_id)
    }
}

} // verus!
