use handler_node::handler::SenderCommand;
use handler_node::sender::{
    FamiliarityLists, HandshakeEntry, HandshakeStatus, Peer, Sender, SenderAction, Storage,
};
use handler_node::types::{ConnectionID, ServerType};

fn id(slot: usize) -> ConnectionID {
    ConnectionID::new(slot, 1)
}

fn named(slot: usize) -> Peer {
    Peer { server_id: slot as u64, connection_id: id(slot), address: format!("10.0.0.{}:1941", slot) }
}

fn address(slot: usize) -> String {
    format!("10.0.0.{}:1941", slot)
}

fn report(command: SenderCommand) -> SenderAction {
    SenderAction::Report(command)
}

#[test]
fn new_registry_is_empty_and_owes_nothing() {
    let sender = Sender::new();
    assert_eq!(sender.get_storages().server_type(), ServerType::Storage);
    assert_eq!(sender.get_handlers().server_type(), ServerType::Handler);
    assert!(sender.get_storages().pending().is_empty());
    assert!(sender.get_handlers().pending().is_empty());
    assert!(!sender.get_storages().is_awaiting());
    assert!(!sender.get_handlers().is_awaiting());
}

#[test]
fn familiarize_registers_each_named_peer_and_asks_for_a_connection() {
    let mut sender = Sender::new();
    let lists = FamiliarityLists::new(vec![named(1), named(2)], vec![named(3)]);
    let actions = sender.familiarize(&lists);
    assert_eq!(
        actions,
        vec![
            SenderAction::Connect(ServerType::Storage, id(1), address(1)),
            SenderAction::Connect(ServerType::Storage, id(2), address(2)),
            SenderAction::Connect(ServerType::Handler, id(3), address(3)),
        ]
    );
    assert_eq!(
        sender.get_storages().pending()[0],
        HandshakeEntry {
            connection_id: id(1),
            server_id: 1,
            address: address(1),
            introducer: id(1),
            status: HandshakeStatus::AcceptPending,
        }
    );
    assert_eq!(sender.get_storages().pending().len(), 2);
    assert_eq!(sender.get_handlers().pending().len(), 1);
    assert!(sender.get_storages().is_awaiting());
    assert!(sender.get_handlers().is_awaiting());
    assert_eq!(sender.get_storages().find(id(2)), Some(1));
    assert_eq!(sender.get_storages().find(id(3)), None);
}

#[test]
fn familiarize_with_an_empty_list_opens_no_round() {
    let mut sender = Sender::new();
    let actions = sender.familiarize(&FamiliarityLists::new(vec![], vec![named(3)]));
    assert_eq!(actions, vec![SenderAction::Connect(ServerType::Handler, id(3), address(3))]);
    assert!(!sender.get_storages().is_awaiting());
    assert!(sender.get_handlers().is_awaiting());
}

#[test]
fn familiarize_does_not_register_a_peer_twice() {
    let mut storages = Storage::new(ServerType::Storage);
    let mut actions = Vec::new();
    storages.familiarize(&vec![named(1), named(1)], &mut actions);
    assert_eq!(storages.pending().len(), 1);
    assert_eq!(actions.len(), 2);
    storages.familiarize(&vec![named(1), named(2)], &mut actions);
    assert_eq!(storages.pending().len(), 2);
    assert_eq!(actions.len(), 4);
}

#[test]
fn the_last_peer_of_a_round_is_reported_once() {
    let mut sender = Sender::new();
    sender.familiarize(&FamiliarityLists::new(vec![named(1), named(2)], vec![]));

    let first = sender.connection_accepted(ServerType::Storage, id(1), id(11));
    assert_eq!(
        first,
        vec![report(SenderCommand::Connected(ServerType::Storage, id(1), id(1), id(11)))]
    );
    assert_eq!(sender.get_storages().pending().len(), 1);
    assert!(sender.get_storages().is_awaiting());

    let last = sender.connection_accepted(ServerType::Storage, id(2), id(12));
    assert_eq!(
        last,
        vec![
            report(SenderCommand::Connected(ServerType::Storage, id(2), id(2), id(12))),
            report(SenderCommand::ConnectedToServers(ServerType::Storage)),
        ]
    );
    assert!(sender.get_storages().pending().is_empty());
    assert!(!sender.get_storages().is_awaiting());

    // The same acknowledgement again finds nobody registered.
    assert!(sender.connection_accepted(ServerType::Storage, id(2), id(12)).is_empty());
    assert!(sender.connected(ServerType::Storage, id(1)).is_empty());
}

#[test]
fn no_word_is_given_without_an_open_round() {
    let mut sender = Sender::new();
    let accepted =
        sender.accept_connection(ServerType::Handler, 5, id(5), address(5), id(50));
    assert_eq!(accepted, vec![SenderAction::Accept(ServerType::Handler, id(5), address(5))]);
    assert!(!sender.get_handlers().is_awaiting());

    let done = sender.connected(ServerType::Handler, id(5));
    assert_eq!(
        done,
        vec![report(SenderCommand::Connected(ServerType::Handler, id(5), id(50), id(5)))]
    );
    assert!(sender.get_handlers().pending().is_empty());
}

#[test]
fn a_new_round_gives_a_new_word() {
    let mut sender = Sender::new();
    for round in 0..2 {
        sender.familiarize(&FamiliarityLists::new(vec![], vec![named(4)]));
        assert!(sender.get_handlers().is_awaiting(), "round {}", round);
        let done = sender.connected(ServerType::Handler, id(4));
        assert_eq!(
            done,
            vec![
                report(SenderCommand::Connected(ServerType::Handler, id(4), id(4), id(4))),
                report(SenderCommand::ConnectedToServers(ServerType::Handler)),
            ]
        );
        assert!(!sender.get_handlers().is_awaiting());
    }
}

#[test]
fn accepting_a_registered_peer_again_is_reported_and_changes_nothing() {
    let mut sender = Sender::new();
    sender.accept_connection(ServerType::Storage, 7, id(7), address(7), id(70));
    let before = sender.get_storages().pending().clone();
    let again = sender.accept_connection(ServerType::Storage, 8, id(7), address(8), id(80));
    assert_eq!(again, vec![SenderAction::AlreadyRegistered(ServerType::Storage, id(7))]);
    assert_eq!(sender.get_storages().pending(), &before);
    // The same identity under the other server type is another peer.
    let other = sender.accept_connection(ServerType::Handler, 8, id(7), address(8), id(80));
    assert_eq!(other, vec![SenderAction::Accept(ServerType::Handler, id(7), address(8))]);
}

#[test]
fn a_peer_that_asked_to_be_accepted_counts_in_an_open_round() {
    let mut sender = Sender::new();
    sender.familiarize(&FamiliarityLists::new(vec![], vec![named(1)]));
    sender.accept_connection(ServerType::Handler, 2, id(2), address(2), id(20));
    let first = sender.connection_accepted(ServerType::Handler, id(1), id(10));
    assert_eq!(first.len(), 1);
    assert!(sender.get_handlers().is_awaiting());
    let last = sender.connected(ServerType::Handler, id(2));
    assert_eq!(
        last,
        vec![
            report(SenderCommand::Connected(ServerType::Handler, id(2), id(20), id(2))),
            report(SenderCommand::ConnectedToServers(ServerType::Handler)),
        ]
    );
}

#[test]
fn completing_one_type_leaves_the_other_alone() {
    let mut sender = Sender::new();
    sender.familiarize(&FamiliarityLists::new(vec![named(1)], vec![named(1)]));
    let done = sender.connected(ServerType::Storage, id(1));
    assert_eq!(done.len(), 2);
    assert_eq!(sender.get_handlers().pending().len(), 1);
    assert!(sender.get_handlers().is_awaiting());
}

#[test]
fn a_failed_connection_is_reported_by_its_kind() {
    let connect = SenderAction::Connect(ServerType::Storage, id(1), address(1));
    assert_eq!(
        connect.failed("refused".to_string()),
        Some(SenderCommand::ConnectionFailed(ServerType::Storage, id(1), "refused".to_string()))
    );
    let accept = SenderAction::Accept(ServerType::Handler, id(2), address(2));
    assert_eq!(
        accept.failed("timed out".to_string()),
        Some(SenderCommand::AcceptConnectionFailed(
            ServerType::Handler,
            id(2),
            "timed out".to_string()
        ))
    );
    assert_eq!(
        SenderAction::AlreadyRegistered(ServerType::Handler, id(2)).failed("x".to_string()),
        None
    );
    assert_eq!(
        report(SenderCommand::ConnectedToServers(ServerType::Handler)).failed("x".to_string()),
        None
    );
}

#[test]
fn a_failed_connection_leaves_the_peer_registered() {
    let mut sender = Sender::new();
    let actions = sender.familiarize(&FamiliarityLists::new(vec![named(1)], vec![]));
    assert!(actions[0].failed("refused".to_string()).is_some());
    assert_eq!(sender.get_storages().find(id(1)), Some(0));
    assert!(sender.get_storages().is_awaiting());
    // The handshake can still be completed.
    let done = sender.connection_accepted(ServerType::Storage, id(1), id(11));
    assert_eq!(done.len(), 2);
}
