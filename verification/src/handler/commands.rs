//! What the control thread finds in its inbox.

use crate::automat::{AutomatCommand, AutomatSignal};
use crate::sender::{FamiliarityLists, HandshakeStatus};
use crate::types::{ConnectionID, ServerID, ServerType, ThreadSource};
use vstd::prelude::*;

verus! {

/// One entry of the control thread's inbox.
#[derive(Clone, Debug, PartialEq, Eq)]
pub enum HandlerCommand {
    /// The transport thread has failed; the tag says where the failure began.
    IpcListenerThreadCrash(ThreadSource),
    /// The connection to the balancer has failed; the tag says who saw it.
    BalancerCrash(ThreadSource),
    IpcListenerSetupError,
    IpcListenerIsReady,
    ShutdownReceived,
    Shutdown,
    IpcListenerFinished,
    Task,
    // From the transport thread.
    EstablishingConnection,
    AcceptConnection(ServerType, ServerID, ConnectionID, String, ConnectionID),
    ConnectionAccepted(ServerType, ConnectionID, ConnectionID),
    Connected(ServerType, ConnectionID),
    EachSecond,
    // From the peer registry.
    SenderCommand(SenderCommand),
    // For the automaton.
    AutomatCommand(AutomatCommand),
    AutomatSignal(AutomatSignal),
    // From the automaton.
    Familiarize(Box<FamiliarityLists>),
    FamiliarityFinished,
    GenerateMap(String),
    MapGenerated,
    CloseMap,
    MapClosed,
}

/// What the peer registry reports to the control thread.
#[derive(Clone, Debug, PartialEq, Eq)]
pub enum SenderCommand {
    /// An outbound connection attempt failed; the text is the cause.
    ConnectionFailed(ServerType, ConnectionID, String),
    /// The connection back to a peer that asked to be accepted failed.
    AcceptConnectionFailed(ServerType, ConnectionID, String),
    /// A send to one peer failed; the status is the one the peer had then.
    TransactionFailed(ServerType, ConnectionID, String, HandshakeStatus),
    /// A peer is connected: its identity, the identity under which the
    /// balancer introduced it, and the identity it is reached through.
    Connected(ServerType, ConnectionID, ConnectionID, ConnectionID),
    /// Every peer of this type is connected.
    ConnectedToServers(ServerType),
}

impl HandlerCommand {
    /// The report that the connection to a peer that the balancer named
    /// could not be opened.
    pub fn connection_failed(
        server_type: ServerType,
        balancer_connection_id: ConnectionID,
        error: String,
    ) -> (command: HandlerCommand)
        ensures
            command == HandlerCommand::SenderCommand(
                SenderCommand::ConnectionFailed(server_type, balancer_connection_id, error),
            ),
    {
        HandlerCommand::SenderCommand(
            SenderCommand::ConnectionFailed(server_type, balancer_connection_id, error),
        )
    }

    /// The report that the connection to a peer that asked to be accepted
    /// could not be opened.
    pub fn accept_connection_failed(
        server_type: ServerType,
        balancer_connection_id: ConnectionID,
        error: String,
    ) -> (command: HandlerCommand)
        ensures
            command == HandlerCommand::SenderCommand(
                SenderCommand::AcceptConnectionFailed(server_type, balancer_connection_id, error),
            ),
    {
        HandlerCommand::SenderCommand(
            SenderCommand::AcceptConnectionFailed(server_type, balancer_connection_id, error),
        )
    }

    /// The report that a send to one peer failed.
    pub fn transaction_failed(
        server_type: ServerType,
        connection_id: ConnectionID,
        error: String,
        old_basic_state: HandshakeStatus,
    ) -> (command: HandlerCommand)
        ensures
            command == HandlerCommand::SenderCommand(
                SenderCommand::TransactionFailed(
                    server_type,
                    connection_id,
                    error,
                    old_basic_state,
                ),
            ),
    {
        HandlerCommand::SenderCommand(
            SenderCommand::TransactionFailed(server_type, connection_id, error, old_basic_state),
        )
    }

    /// The report that a peer is connected.
    pub fn connected(
        server_type: ServerType,
        connection_id: ConnectionID,
        balancer_connection_id: ConnectionID,
        via_connection_id: ConnectionID,
    ) -> (command: HandlerCommand)
        ensures
            command == HandlerCommand::SenderCommand(
                SenderCommand::Connected(
                    server_type,
                    connection_id,
                    balancer_connection_id,
                    via_connection_id,
                ),
            ),
    {
        HandlerCommand::SenderCommand(
            SenderCommand::Connected(
                server_type,
                connection_id,
                balancer_connection_id,
                via_connection_id,
            ),
        )
    }

    /// The report that every peer of `server_type` is connected.
    pub fn connected_to_servers(server_type: ServerType) -> (command: HandlerCommand)
        ensures
            command == HandlerCommand::SenderCommand(SenderCommand::ConnectedToServers(server_type)),
    {
        HandlerCommand::SenderCommand(SenderCommand::ConnectedToServers(server_type))
    }
}

} // verus!
