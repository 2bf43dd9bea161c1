//! What holds of the peer registry whatever it is given.

use crate::automat::model::types_to_meet;
use crate::handler::commands::SenderCommand;
use crate::sender::model::{
    index_of, is_registered, lemma_index_of, words, HandshakeEvent, SenderView, StorageView,
};
use crate::sender::{FamiliarityLists, HandshakeStatus, Peer, SenderAction};
use crate::types::{ConnectionID, ServerID, ServerType};
use vstd::prelude::*;

verus! {

/// A new registry is well formed.
pub proof fn lemma_initial_registry_is_well_formed()
    ensures
        SenderView::initial().wf(),
{
}

proof fn lemma_seed_all_keeps_well_formed(storage: StorageView, peers: Seq<Peer>)
    requires
        storage.wf(),
    ensures
        storage.seed_all(peers).next.wf(),
        storage.seed_all(peers).next.server_type == storage.server_type,
        storage.seed_all(peers).next.awaiting == storage.awaiting,
        storage.seed_all(peers).next.pending.len() >= storage.pending.len(),
        peers.len() > 0 ==> storage.seed_all(peers).next.pending.len() > 0,
        storage.seed_all(peers).actions.len() == peers.len(),
    decreases peers.len(),
{
    if peers.len() > 0 {
        let first = storage.seed_one(peers[0]);
        lemma_seed_all_keeps_well_formed(first.next, peers.drop_first());
    }
}

/// A round of familiarization leaves a well-formed registry well formed,
/// asks for one connection per peer named, and is open exactly if
/// anyone was named.
pub proof fn lemma_familiarize_keeps_well_formed(storage: StorageView, peers: Seq<Peer>)
    requires
        storage.wf(),
    ensures
        storage.familiarize(peers).next.wf(),
        storage.familiarize(peers).next.server_type == storage.server_type,
        storage.familiarize(peers).next.awaiting == (peers.len() > 0),
        storage.familiarize(peers).actions.len() == peers.len(),
{
    lemma_seed_all_keeps_well_formed(storage, peers);
}

/// Accepting a peer leaves a well-formed registry well formed, and
/// accepting it again changes nothing: it is registered once.
pub proof fn lemma_accept_connection_is_idempotent(
    storage: StorageView,
    server_id: ServerID,
    connection_id: ConnectionID,
    address: String,
    introducer: ConnectionID,
)
    requires
        storage.wf(),
    ensures
        ({
            let once = storage.accept_connection(server_id, connection_id, address, introducer);
            let twice = once.next.accept_connection(server_id, connection_id, address, introducer);
            &&& once.next.wf()
            &&& is_registered(once.next.pending, connection_id)
            &&& twice.next == once.next
            &&& twice.actions == seq![
                SenderAction::AlreadyRegistered(storage.server_type, connection_id),
            ]
        }),
{
    let once = storage.accept_connection(server_id, connection_id, address, introducer);
    if !is_registered(storage.pending, connection_id) {
        assert(once.next.pending[storage.pending.len() as int].connection_id == connection_id);
    }
}

/// A completed handshake leaves a well-formed registry well formed. The
/// automaton is told that all peers of the type are connected exactly
/// when a round is open and the peer was the last one registered; the
/// round is then closed, so that nothing more is said until the next
/// round of familiarization.
pub proof fn lemma_one_word_per_round(
    storage: StorageView,
    connection_id: ConnectionID,
    via: ConnectionID,
)
    requires
        storage.wf(),
    ensures
        ({
            let done = storage.complete(connection_id, via);
            let word = SenderAction::Report(SenderCommand::ConnectedToServers(storage.server_type));
            let told = storage.awaiting && storage.pending.len() == 1 && is_registered(
                storage.pending,
                connection_id,
            );
            &&& done.next.wf()
            &&& done.actions.contains(word) <==> told
            &&& told ==> !done.next.awaiting
            &&& !told ==> done.next.awaiting == storage.awaiting
            &&& !is_registered(done.next.pending, connection_id)
        }),
{
    lemma_index_of(storage.pending, connection_id);
}

/// A peer that is not registered completes nothing.
pub proof fn lemma_unknown_peer_completes_nothing(
    storage: StorageView,
    connection_id: ConnectionID,
    via: ConnectionID,
)
    requires
        !is_registered(storage.pending, connection_id),
    ensures
        storage.complete(connection_id, via).next == storage,
        storage.complete(connection_id, via).actions == Seq::<SenderAction>::empty(),
{
}

proof fn lemma_words_add_up(first: Seq<SenderAction>, second: Seq<SenderAction>, server_type: ServerType)
    ensures
        words(first + second, server_type) == words(first, server_type) + words(
            second,
            server_type,
        ),
    decreases first.len(),
{
    if first.len() == 0 {
    } else {
        assert((first + second).drop_first() =~= first.drop_first() + second);
        lemma_words_add_up(first.drop_first(), second, server_type);
    }
}

/// What one step of a handshake does to a well-formed registry: it stays
/// well formed, no round is opened, and the automaton is told that all
/// peers are connected once if the step closes the round and not at all
/// otherwise.
pub proof fn lemma_step_gives_the_word_when_the_round_closes(
    storage: StorageView,
    event: HandshakeEvent,
)
    requires
        storage.wf(),
    ensures
        ({
            let step = storage.on(event);
            &&& step.next.wf()
            &&& step.next.server_type == storage.server_type
            &&& step.next.awaiting ==> storage.awaiting
            &&& words(step.actions, storage.server_type) == if storage.awaiting
                && !step.next.awaiting {
                1nat
            } else {
                0nat
            }
        }),
{
    let step = storage.on(event);
    let server_type = storage.server_type;
    reveal_with_fuel(words, 3);
    match event {
        HandshakeEvent::AcceptConnection(server_id, connection_id, address, introducer) => {
            lemma_accept_connection_is_idempotent(
                storage,
                server_id,
                connection_id,
                address,
                introducer,
            );
        },
        HandshakeEvent::ConnectionAccepted(connection_id, confirmed) => {
            lemma_one_word_per_round(storage, connection_id, confirmed);
            lemma_words_of_a_completion(storage, connection_id, confirmed);
        },
        HandshakeEvent::Connected(connection_id) => {
            lemma_one_word_per_round(storage, connection_id, connection_id);
            lemma_words_of_a_completion(storage, connection_id, connection_id);
        },
    }
}

proof fn lemma_words_of_a_completion(
    storage: StorageView,
    connection_id: ConnectionID,
    via: ConnectionID,
)
    requires
        storage.wf(),
    ensures
        words(storage.complete(connection_id, via).actions, storage.server_type) == if storage.awaiting
            && !storage.complete(connection_id, via).next.awaiting {
            1nat
        } else {
            0nat
        },
{
    let done = storage.complete(connection_id, via);
    reveal_with_fuel(words, 3);
    if is_registered(storage.pending, connection_id) {
        let at = index_of(storage.pending, connection_id);
        let left = storage.pending.remove(at);
        if storage.awaiting && left.len() == 0 {
            let rest = done.actions.drop_first();
        } else {
        }
    }
}

/// However a handshake goes on between two rounds of familiarization, the
/// automaton is told at most once that all peers of the type are
/// connected: exactly once if a round was open and has been closed, and
/// never otherwise.
pub proof fn lemma_one_word_between_rounds(storage: StorageView, events: Seq<HandshakeEvent>)
    requires
        storage.wf(),
    ensures
        ({
            let run = storage.run(events);
            &&& run.next.wf()
            &&& run.next.server_type == storage.server_type
            &&& run.next.awaiting ==> storage.awaiting
            &&& words(run.actions, storage.server_type) == if storage.awaiting
                && !run.next.awaiting {
                1nat
            } else {
                0nat
            }
        }),
    decreases events.len(),
{
    if events.len() > 0 {
        let first = storage.on(events[0]);
        lemma_step_gives_the_word_when_the_round_closes(storage, events[0]);
        lemma_one_word_between_rounds(first.next, events.drop_first());
        lemma_words_add_up(
            first.actions,
            first.next.run(events.drop_first()).actions,
            storage.server_type,
        );
    }
}

/// After a round of familiarization the registry of a server type waits
/// for a word exactly if the automaton waits for that type: both go by
/// whether the balancer named a peer of the type.
pub proof fn lemma_rounds_match_what_the_automaton_awaits(
    sender: SenderView,
    lists: FamiliarityLists,
    server_type: ServerType,
)
    requires
        sender.wf(),
    ensures
        sender.familiarize(lists).0.wf(),
        sender.familiarize(lists).0.of(server_type).awaiting
            == types_to_meet(lists).contains(server_type),
{
    lemma_familiarize_keeps_well_formed(sender.storages, lists.storages@);
    lemma_familiarize_keeps_well_formed(sender.handlers, lists.handlers@);
}

} // verus!
