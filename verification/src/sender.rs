//! The peer registry: who this node still has to shake hands with.
//!
//! A peer is registered when the balancer names it or when it asks to be
//! accepted, and leaves the registry when the handshake with it is
//! complete. When the last peer of a server type leaves, the registry says
//! so, once for each round that the balancer opened.

pub mod laws;
pub mod model;

use crate::handler::commands::SenderCommand;
use crate::sender::laws::{
    lemma_accept_connection_is_idempotent, lemma_familiarize_keeps_well_formed,
    lemma_one_word_per_round,
};
use crate::sender::model::{index_of, is_registered, lemma_index_of, SenderView, StorageView};
use crate::types::{ConnectionID, ServerID, ServerType};
use vstd::prelude::*;

verus! {

/// How far the handshake with one peer has come.
#[derive(Clone, Copy, Debug, PartialEq, Eq, Structural)]
pub enum HandshakeStatus {
    AcceptPending,
    AcceptedWaitingConfirm,
    Connected,
}

/// A peer as the balancer names it: its number, its connection identity and
/// the address it listens on.
#[derive(Clone, Debug, PartialEq, Eq)]
pub struct Peer {
    pub server_id: ServerID,
    pub connection_id: ConnectionID,
    pub address: String,
}

/// The peers to shake hands with, one list per server type.
#[derive(Clone, Debug, PartialEq, Eq)]
pub struct FamiliarityLists {
    pub storages: Vec<Peer>,
    pub handlers: Vec<Peer>,
}

impl FamiliarityLists {
    pub fn new(storages: Vec<Peer>, handlers: Vec<Peer>) -> (lists: FamiliarityLists)
        ensures
            lists.storages == storages,
            lists.handlers == handlers,
    {
        FamiliarityLists { storages, handlers }
    }
}

/// One registered peer.
#[derive(Clone, Debug, PartialEq, Eq)]
pub struct HandshakeEntry {
    pub connection_id: ConnectionID,
    pub server_id: ServerID,
    pub address: String,
    /// The identity under which the balancer made the peer known.
    pub introducer: ConnectionID,
    pub status: HandshakeStatus,
}

/// What the registry asks of the outside.
#[derive(Clone, Debug, PartialEq, Eq)]
pub enum SenderAction {
    /// Open a connection to a peer that the balancer named, and ask the
    /// peer to accept this node.
    Connect(ServerType, ConnectionID, String),
    /// Open a connection to a peer that asked to be accepted, and
    /// acknowledge the acceptance once the connection stands.
    Accept(ServerType, ConnectionID, String),
    /// The peer asked to be accepted although it is registered already.
    AlreadyRegistered(ServerType, ConnectionID),
    /// Put this into the control thread's inbox.
    Report(SenderCommand),
}

impl SenderAction {
    /// What is reported when this could not be carried out for `cause`:
    /// a failed connection to a peer that the balancer named, or to one
    /// that asked to be accepted. The rest is not carried out by
    /// connecting, and cannot fail so.
    pub open spec fn failure(self, cause: String) -> Option<SenderCommand> {
        match self {
            SenderAction::Connect(server_type, connection_id, _) => Some(
                SenderCommand::ConnectionFailed(server_type, connection_id, cause),
            ),
            SenderAction::Accept(server_type, connection_id, _) => Some(
                SenderCommand::AcceptConnectionFailed(server_type, connection_id, cause),
            ),
            _ => None,
        }
    }

    /// The report to put into the control thread's inbox when this could
    /// not be carried out for `cause`. The peer stays registered: the
    /// failure is told, and whether to try again is for others to
    /// decide.
    pub fn failed(&self, cause: String) -> (report: Option<SenderCommand>)
        ensures
            report == self.failure(cause),
    {
        match self {
            SenderAction::Connect(server_type, connection_id, _) => Some(
                SenderCommand::ConnectionFailed(*server_type, *connection_id, cause),
            ),
            SenderAction::Accept(server_type, connection_id, _) => Some(
                SenderCommand::AcceptConnectionFailed(*server_type, *connection_id, cause),
            ),
            _ => None,
        }
    }
}

/// The registry of one server type.
pub struct Storage {
    server_type: ServerType,
    pending: Vec<HandshakeEntry>,
    awaiting: bool,
}

impl View for Storage {
    type V = StorageView;

    closed spec fn view(&self) -> StorageView {
        StorageView {
            server_type: self.server_type,
            pending: self.pending@,
            awaiting: self.awaiting,
        }
    }
}

impl Storage {
    pub fn new(server_type: ServerType) -> (storage: Storage)
        ensures
            storage@ == StorageView::initial(server_type),
            storage@.wf(),
    {
        Storage { server_type, pending: Vec::new(), awaiting: false }
    }

    pub fn server_type(&self) -> (server_type: ServerType)
        ensures
            server_type == self@.server_type,
    {
        self.server_type
    }

    /// The peers whose handshake is not complete, in the order of
    /// registration.
    pub fn pending(&self) -> (pending: &Vec<HandshakeEntry>)
        ensures
            pending@ == self@.pending,
    {
        &self.pending
    }

    /// Whether the automaton is owed a word when the last peer is
    /// connected.
    pub fn is_awaiting(&self) -> (awaiting: bool)
        ensures
            awaiting == self@.awaiting,
    {
        self.awaiting
    }

    /// Index of the entry of `connection_id`, if it is registered.
    pub fn find(&self, connection_id: ConnectionID) -> (found: Option<usize>)
        ensures
            found is Some <==> is_registered(self@.pending, connection_id),
            found matches Some(at) ==> at == index_of(self@.pending, connection_id) && at
                < self@.pending.len(),
    {
        let mut at: usize = 0;
        while at < self.pending.len()
            invariant
                at <= self.pending.len(),
                forall|i: int|
                    0 <= i < at ==> #[trigger] self.pending@[i].connection_id != connection_id,
            decreases self.pending.len() - at,
        {
            if self.pending[at].connection_id == connection_id {
                proof {
                    lemma_index_of(self.pending@, connection_id);
                }
                return Some(at);
            }
            at = at + 1;
        }
        proof {
            lemma_index_of(self.pending@, connection_id);
        }
        None
    }

    fn seed_one(&mut self, peer: &Peer, actions: &mut Vec<SenderAction>)
        ensures
            final(self)@ == old(self)@.seed_one(*peer).next,
            final(actions)@ == old(actions)@ + old(self)@.seed_one(*peer).actions,
    {
        if self.find(peer.connection_id).is_none() {
            self.pending.push(
                HandshakeEntry {
                    connection_id: peer.connection_id,
                    server_id: peer.server_id,
                    address: peer.address.clone(),
                    introducer: peer.connection_id,
                    status: HandshakeStatus::AcceptPending,
                },
            );
        }
        actions.push(
            SenderAction::Connect(self.server_type, peer.connection_id, peer.address.clone()),
        );
    }

    /// Opens a round of familiarization with `peers`.
    pub fn familiarize(&mut self, peers: &Vec<Peer>, actions: &mut Vec<SenderAction>)
        ensures
            final(self)@ == old(self)@.familiarize(peers@).next,
            final(actions)@ == old(actions)@ + old(self)@.familiarize(peers@).actions,
            old(self)@.wf() ==> final(self)@.wf(),
    {
        proof {
            if self@.wf() {
                lemma_familiarize_keeps_well_formed(self@, peers@);
            }
        }
        let mut done: usize = 0;
        assert(peers@.subrange(0, peers@.len() as int) =~= peers@);
        while done < peers.len()
            invariant
                done <= peers.len(),
                self@.seed_all(peers@.subrange(done as int, peers@.len() as int)).next == old(
                    self,
                )@.seed_all(peers@).next,
                actions@ + self@.seed_all(
                    peers@.subrange(done as int, peers@.len() as int),
                ).actions == old(actions)@ + old(self)@.seed_all(peers@).actions,
            decreases peers.len() - done,
        {
            assert(peers@.subrange(done as int, peers@.len() as int).drop_first()
                =~= peers@.subrange(done + 1, peers@.len() as int));
            self.seed_one(&peers[done], actions);
            done = done + 1;
        }
        self.awaiting = peers.len() > 0;
    }

    /// A peer asks to be accepted.
    pub fn accept_connection(
        &mut self,
        server_id: ServerID,
        connection_id: ConnectionID,
        address: String,
        balancer_connection_id: ConnectionID,
        actions: &mut Vec<SenderAction>,
    )
        ensures
            final(self)@ == old(self)@.accept_connection(
                server_id,
                connection_id,
                address,
                balancer_connection_id,
            ).next,
            final(actions)@ == old(actions)@ + old(self)@.accept_connection(
                server_id,
                connection_id,
                address,
                balancer_connection_id,
            ).actions,
            old(self)@.wf() ==> final(self)@.wf(),
    {
        proof {
            if self@.wf() {
                lemma_accept_connection_is_idempotent(
                    self@,
                    server_id,
                    connection_id,
                    address,
                    balancer_connection_id,
                );
            }
        }
        if self.find(connection_id).is_some() {
            actions.push(SenderAction::AlreadyRegistered(self.server_type, connection_id));
        } else {
            self.pending.push(
                HandshakeEntry {
                    connection_id,
                    server_id,
                    address: address.clone(),
                    introducer: balancer_connection_id,
                    status: HandshakeStatus::AcceptPending,
                },
            );
            actions.push(SenderAction::Accept(self.server_type, connection_id, address));
        }
    }

    fn complete(
        &mut self,
        connection_id: ConnectionID,
        via: ConnectionID,
        actions: &mut Vec<SenderAction>,
    )
        ensures
            final(self)@ == old(self)@.complete(connection_id, via).next,
            final(actions)@ == old(actions)@ + old(self)@.complete(connection_id, via).actions,
            old(self)@.wf() ==> final(self)@.wf(),
    {
        proof {
            if self@.wf() {
                lemma_one_word_per_round(self@, connection_id, via);
            }
        }
        match self.find(connection_id) {
            None => {},
            Some(at) => {
                let entry = self.pending.remove(at);
                actions.push(
                    SenderAction::Report(
                        SenderCommand::Connected(
                            self.server_type,
                            connection_id,
                            entry.introducer,
                            via,
                        ),
                    ),
                );
                if self.awaiting && self.pending.len() == 0 {
                    self.awaiting = false;
                    actions.push(
                        SenderAction::Report(SenderCommand::ConnectedToServers(self.server_type)),
                    );
                }
            },
        }
    }

    /// The peer has acknowledged that it accepted this node.
    pub fn connection_accepted(
        &mut self,
        connection_id: ConnectionID,
        set_connection_id: ConnectionID,
        actions: &mut Vec<SenderAction>,
    )
        ensures
            final(self)@ == old(self)@.connection_accepted(connection_id, set_connection_id).next,
            final(actions)@ == old(actions)@ + old(self)@.connection_accepted(
                connection_id,
                set_connection_id,
            ).actions,
            old(self)@.wf() ==> final(self)@.wf(),
    {
        self.complete(connection_id, set_connection_id, actions)
    }

    /// The peer reports the connection complete from its side.
    pub fn connected(&mut self, connection_id: ConnectionID, actions: &mut Vec<SenderAction>)
        ensures
            final(self)@ == old(self)@.connected(connection_id).next,
            final(actions)@ == old(actions)@ + old(self)@.connected(connection_id).actions,
            old(self)@.wf() ==> final(self)@.wf(),
    {
        self.complete(connection_id, connection_id, actions)
    }
}

/// The registries of both server types.
pub struct Sender {
    pub storages: Storage,
    pub handlers: Storage,
}

impl View for Sender {
    type V = SenderView;

    open spec fn view(&self) -> SenderView {
        SenderView { storages: self.storages@, handlers: self.handlers@ }
    }
}

impl Sender {
    pub fn new() -> (sender: Sender)
        ensures
            sender@ == SenderView::initial(),
            sender@.wf(),
    {
        Sender {
            storages: Storage::new(ServerType::Storage),
            handlers: Storage::new(ServerType::Handler),
        }
    }

    pub fn get_storages(&self) -> (storages: &Storage)
        ensures
            storages@ == self@.storages,
    {
        &self.storages
    }

    pub fn get_handlers(&self) -> (handlers: &Storage)
        ensures
            handlers@ == self@.handlers,
    {
        &self.handlers
    }

    /// Opens a round of familiarization with the peers of `lists`.
    pub fn familiarize(&mut self, lists: &FamiliarityLists) -> (actions: Vec<SenderAction>)
        ensures
            final(self)@ == old(self)@.familiarize(*lists).0,
            actions@ == old(self)@.familiarize(*lists).1,
            old(self)@.wf() ==> final(self)@.wf(),
    {
        proof {
            if self@.wf() {
                lemma_familiarize_keeps_well_formed(self@.storages, lists.storages@);
                lemma_familiarize_keeps_well_formed(self@.handlers, lists.handlers@);
            }
        }
        let mut actions = Vec::new();
        self.storages.familiarize(&lists.storages, &mut actions);
        self.handlers.familiarize(&lists.handlers, &mut actions);
        actions
    }

    /// A peer of `server_type` asks to be accepted. It is registered and
    /// to be connected to; a peer that is registered already is reported
    /// as such and nothing else changes.
    pub fn accept_connection(
        &mut self,
        server_type: ServerType,
        server_id: ServerID,
        connection_id: ConnectionID,
        address: String,
        balancer_connection_id: ConnectionID,
    ) -> (actions: Vec<SenderAction>)
        ensures
            final(self)@ == old(self)@.with(
                server_type,
                old(self)@.of(server_type).accept_connection(
                    server_id,
                    connection_id,
                    address,
                    balancer_connection_id,
                ).next,
            ),
            actions@ == old(self)@.of(server_type).accept_connection(
                server_id,
                connection_id,
                address,
                balancer_connection_id,
            ).actions,
            old(self)@.wf() ==> final(self)@.wf(),
    {
        let mut actions = Vec::new();
        match server_type {
            ServerType::Storage => self.storages.accept_connection(
                server_id,
                connection_id,
                address,
                balancer_connection_id,
                &mut actions,
            ),
            ServerType::Handler => self.handlers.accept_connection(
                server_id,
                connection_id,
                address,
                balancer_connection_id,
                &mut actions,
            ),
        }
        actions
    }

    /// A peer of `server_type` has acknowledged that it accepted this
    /// node. The peer leaves the registry; if it was the last one of an
    /// open round, the automaton is to be told.
    pub fn connection_accepted(
        &mut self,
        server_type: ServerType,
        connection_id: ConnectionID,
        set_connection_id: ConnectionID,
    ) -> (actions: Vec<SenderAction>)
        ensures
            final(self)@ == old(self)@.with(
                server_type,
                old(self)@.of(server_type).connection_accepted(
                    connection_id,
                    set_connection_id,
                ).next,
            ),
            actions@ == old(self)@.of(server_type).connection_accepted(
                connection_id,
                set_connection_id,
            ).actions,
            old(self)@.wf() ==> final(self)@.wf(),
    {
        let mut actions = Vec::new();
        match server_type {
            ServerType::Storage => self.storages.connection_accepted(
                connection_id,
                set_connection_id,
                &mut actions,
            ),
            ServerType::Handler => self.handlers.connection_accepted(
                connection_id,
                set_connection_id,
                &mut actions,
            ),
        }
        actions
    }

    /// A peer of `server_type` reports the connection complete from its
    /// side. The peer leaves the registry; if it was the last one of an
    /// open round, the automaton is to be told.
    pub fn connected(&mut self, server_type: ServerType, connection_id: ConnectionID) -> (actions:
        Vec<SenderAction>)
        ensures
            final(self)@ == old(self)@.with(
                server_type,
                old(self)@.of(server_type).connected(connection_id).next,
            ),
            actions@ == old(self)@.of(server_type).connected(connection_id).actions,
            old(self)@.wf() ==> final(self)@.wf(),
    {
        let mut actions = Vec::new();
        match server_type {
            ServerType::Storage => self.storages.connected(connection_id, &mut actions),
            ServerType::Handler => self.handlers.connected(connection_id, &mut actions),
        }
        actions
    }
}

} // verus!
