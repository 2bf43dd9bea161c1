//! The peer registry as mathematics: the peers that wait as a sequence,
//! and each operation as a function from the registry to the next
//! registry and what is asked of the outside.

use crate::handler::commands::SenderCommand;
use crate::sender::{FamiliarityLists, HandshakeEntry, HandshakeStatus, Peer, SenderAction};
use crate::types::{ConnectionID, ServerID, ServerType};
use vstd::prelude::*;

verus! {

/// Index of the first entry of `pending` that belongs to `connection_id`;
/// the length of `pending` where there is none.
pub open spec fn index_of(pending: Seq<HandshakeEntry>, connection_id: ConnectionID) -> int
    decreases pending.len(),
{
    if pending.len() == 0 {
        0
    } else if pending[0].connection_id == connection_id {
        0
    } else {
        1 + index_of(pending.drop_first(), connection_id)
    }
}

/// `connection_id` has an entry in `pending`.
pub open spec fn is_registered(pending: Seq<HandshakeEntry>, connection_id: ConnectionID) -> bool {
    exists|i: int| 0 <= i < pending.len() && #[trigger] pending[i].connection_id == connection_id
}

/// `index_of` is the first index with the identity, and only that.
pub proof fn lemma_index_of(pending: Seq<HandshakeEntry>, connection_id: ConnectionID)
    ensures
        0 <= index_of(pending, connection_id) <= pending.len(),
        index_of(pending, connection_id) < pending.len() <==> is_registered(
            pending,
            connection_id,
        ),
        index_of(pending, connection_id) < pending.len() ==> pending[index_of(
            pending,
            connection_id,
        )].connection_id == connection_id,
        forall|i: int|
            0 <= i < index_of(pending, connection_id) ==> #[trigger] pending[i].connection_id
                != connection_id,
    decreases pending.len(),
{
    if pending.len() > 0 && pending[0].connection_id != connection_id {
        let rest = pending.drop_first();
        lemma_index_of(rest, connection_id);
        let at = index_of(rest, connection_id);
        assert forall|i: int| 0 <= i < at + 1 implies #[trigger] pending[i].connection_id
            != connection_id by {
            if i > 0 {
                assert(rest[i - 1].connection_id != connection_id);
            }
        }
        if at < rest.len() {
        }
        if is_registered(pending, connection_id) {
            let i = choose|i: int|
                0 <= i < pending.len() && #[trigger] pending[i].connection_id == connection_id;
        }
    } else if pending.len() > 0 {
    }
}

/// The registry of one server type, as plain values.
#[verifier::ext_equal]
pub struct StorageView {
    pub server_type: ServerType,
    /// The peers whose handshake is not complete, in the order of
    /// registration.
    pub pending: Seq<HandshakeEntry>,
    /// A round is open: the automaton is owed a word when the last peer
    /// is connected.
    pub awaiting: bool,
}

/// The result of one operation on a registry.
#[verifier::ext_equal]
pub struct Handshake {
    pub next: StorageView,
    pub actions: Seq<SenderAction>,
}

impl Handshake {
    /// `self` with `actions` put in front of its own.
    pub open spec fn after(self, actions: Seq<SenderAction>) -> Handshake {
        Handshake { next: self.next, actions: actions + self.actions }
    }
}

impl StorageView {
    /// The registry of a node that has just started.
    pub open spec fn initial(server_type: ServerType) -> StorageView {
        StorageView { server_type, pending: Seq::empty(), awaiting: false }
    }

    /// What holds of every registry that began as `initial(..)`: no peer
    /// is registered twice, a registered peer is not connected yet, and
    /// an open round has someone to wait for.
    pub open spec fn wf(self) -> bool {
        &&& forall|i: int, j: int|
            0 <= i < j < self.pending.len() ==> #[trigger] self.pending[i].connection_id
                != #[trigger] self.pending[j].connection_id
        &&& forall|i: int|
            0 <= i < self.pending.len() ==> #[trigger] self.pending[i].status
                != HandshakeStatus::Connected
        &&& self.awaiting ==> self.pending.len() > 0
    }

    /// The entry made for a peer of this registry.
    pub open spec fn entry(
        server_id: ServerID,
        connection_id: ConnectionID,
        address: String,
        introducer: ConnectionID,
    ) -> HandshakeEntry {
        HandshakeEntry {
            connection_id,
            server_id,
            address,
            introducer,
            status: HandshakeStatus::AcceptPending,
        }
    }

    /// One peer that the balancer named is registered, unless it is
    /// already, and is to be connected to.
    pub open spec fn seed_one(self, peer: Peer) -> Handshake {
        Handshake {
            next: if is_registered(self.pending, peer.connection_id) {
                self
            } else {
                StorageView {
                    pending: self.pending.push(
                        Self::entry(
                            peer.server_id,
                            peer.connection_id,
                            peer.address,
                            peer.connection_id,
                        ),
                    ),
                    ..self
                }
            },
            actions: seq![
                SenderAction::Connect(self.server_type, peer.connection_id, peer.address),
            ],
        }
    }

    /// The peers that the balancer named are registered one after the
    /// other.
    pub open spec fn seed_all(self, peers: Seq<Peer>) -> Handshake
        decreases peers.len(),
    {
        if peers.len() == 0 {
            Handshake { next: self, actions: Seq::empty() }
        } else {
            let first = self.seed_one(peers[0]);
            first.next.seed_all(peers.drop_first()).after(first.actions)
        }
    }

    /// A round of familiarization: the peers are registered, and the
    /// round is open exactly if the balancer named anyone.
    pub open spec fn familiarize(self, peers: Seq<Peer>) -> Handshake {
        let seeded = self.seed_all(peers);
        Handshake {
            next: StorageView { awaiting: peers.len() > 0, ..seeded.next },
            actions: seeded.actions,
        }
    }

    /// A peer asks to be accepted.
    pub open spec fn accept_connection(
        self,
        server_id: ServerID,
        connection_id: ConnectionID,
        address: String,
        introducer: ConnectionID,
    ) -> Handshake {
        if is_registered(self.pending, connection_id) {
            Handshake {
                next: self,
                actions: seq![SenderAction::AlreadyRegistered(self.server_type, connection_id)],
            }
        } else {
            Handshake {
                next: StorageView {
                    pending: self.pending.push(
                        Self::entry(server_id, connection_id, address, introducer),
                    ),
                    ..self
                },
                actions: seq![SenderAction::Accept(self.server_type, connection_id, address)],
            }
        }
    }

    /// The handshake with `connection_id` is complete; the peer is reached
    /// through `via`. The peer leaves the registry. If it was the last
    /// one of an open round, the round is closed and the automaton told.
    /// A peer that is not registered changes nothing.
    pub open spec fn complete(self, connection_id: ConnectionID, via: ConnectionID) -> Handshake {
        if !is_registered(self.pending, connection_id) {
            Handshake { next: self, actions: Seq::empty() }
        } else {
            let at = index_of(self.pending, connection_id);
            let left = self.pending.remove(at);
            let connected = SenderAction::Report(
                SenderCommand::Connected(
                    self.server_type,
                    connection_id,
                    self.pending[at].introducer,
                    via,
                ),
            );
            if self.awaiting && left.len() == 0 {
                Handshake {
                    next: StorageView { pending: left, awaiting: false, ..self },
                    actions: seq![
                        connected,
                        SenderAction::Report(SenderCommand::ConnectedToServers(self.server_type)),
                    ],
                }
            } else {
                Handshake {
                    next: StorageView { pending: left, ..self },
                    actions: seq![connected],
                }
            }
        }
    }

    /// The peer has acknowledged that it accepted this node, and names the
    /// identity to reach it through.
    pub open spec fn connection_accepted(
        self,
        connection_id: ConnectionID,
        confirmed: ConnectionID,
    ) -> Handshake {
        self.complete(connection_id, confirmed)
    }

    /// The peer reports the connection complete from its side.
    pub open spec fn connected(self, connection_id: ConnectionID) -> Handshake {
        self.complete(connection_id, connection_id)
    }

    /// One step of a handshake.
    pub open spec fn on(self, event: HandshakeEvent) -> Handshake {
        match event {
            HandshakeEvent::AcceptConnection(server_id, connection_id, address, introducer) => {
                self.accept_connection(server_id, connection_id, address, introducer)
            },
            HandshakeEvent::ConnectionAccepted(connection_id, confirmed) => {
                self.connection_accepted(connection_id, confirmed)
            },
            HandshakeEvent::Connected(connection_id) => self.connected(connection_id),
        }
    }

    /// The steps `events` one after the other.
    pub open spec fn run(self, events: Seq<HandshakeEvent>) -> Handshake
        decreases events.len(),
    {
        if events.len() == 0 {
            Handshake { next: self, actions: Seq::empty() }
        } else {
            let first = self.on(events[0]);
            first.next.run(events.drop_first()).after(first.actions)
        }
    }
}

/// A step of a handshake, as it reaches the registry of one server type.
pub enum HandshakeEvent {
    AcceptConnection(ServerID, ConnectionID, String, ConnectionID),
    ConnectionAccepted(ConnectionID, ConnectionID),
    Connected(ConnectionID),
}

/// How often `actions` tell the automaton that all peers of
/// `server_type` are connected.
pub open spec fn words(actions: Seq<SenderAction>, server_type: ServerType) -> nat
    decreases actions.len(),
{
    if actions.len() == 0 {
        0
    } else {
        words(actions.drop_first(), server_type) + if actions[0] == SenderAction::Report(
            SenderCommand::ConnectedToServers(server_type),
        ) {
            1nat
        } else {
            0nat
        }
    }
}

/// The registries of both server types, as plain values.
#[verifier::ext_equal]
pub struct SenderView {
    pub storages: StorageView,
    pub handlers: StorageView,
}

impl SenderView {
    /// The registries of a node that has just started.
    pub open spec fn initial() -> SenderView {
        SenderView {
            storages: StorageView::initial(ServerType::Storage),
            handlers: StorageView::initial(ServerType::Handler),
        }
    }

    pub open spec fn wf(self) -> bool {
        &&& self.storages.wf()
        &&& self.handlers.wf()
        &&& self.storages.server_type == ServerType::Storage
        &&& self.handlers.server_type == ServerType::Handler
    }

    /// The registry of `server_type`.
    pub open spec fn of(self, server_type: ServerType) -> StorageView {
        match server_type {
            ServerType::Storage => self.storages,
            ServerType::Handler => self.handlers,
        }
    }

    /// The same registries with `storage` in the place of `server_type`.
    pub open spec fn with(self, server_type: ServerType, storage: StorageView) -> SenderView {
        match server_type {
            ServerType::Storage => SenderView { storages: storage, ..self },
            ServerType::Handler => SenderView { handlers: storage, ..self },
        }
    }

    /// A round of familiarization: the storages first, then the handlers.
    pub open spec fn familiarize(self, lists: FamiliarityLists) -> (SenderView, Seq<SenderAction>) {
        let storages = self.storages.familiarize(lists.storages@);
        let handlers = self.handlers.familiarize(lists.handlers@);
        (
            SenderView { storages: storages.next, handlers: handlers.next },
            storages.actions + handlers.actions,
        )
    }
}

} // verus!
