use handler_node::types::{ConnectionID, ServerType, ServerTypeSet, ThreadSet, ThreadSource};

#[test]
fn thread_names_are_the_ones_shown_in_messages() {
    assert_eq!(ThreadSource::IpcListener.to_string(), "IPC Listener");
    assert_eq!(ThreadSource::Handler.to_string(), "Handler");
}

#[test]
fn each_server_type_and_thread_has_its_own_bit() {
    assert_eq!(ServerType::Storage.bit(), 1);
    assert_eq!(ServerType::Handler.bit(), 2);
    assert_eq!(ThreadSource::IpcListener.bit(), 1);
    assert_eq!(ThreadSource::Handler.bit(), 2);
}

#[test]
fn connection_id_keeps_slot_and_generation() {
    let id = ConnectionID::new(4, 9);
    assert_eq!(id.slot_index, 4);
    assert_eq!(id.unique_id, 9);
    assert_ne!(id, ConnectionID::new(9, 4));
}

#[test]
fn server_type_set_inserts_removes_and_tests_membership() {
    let none = ServerTypeSet::empty();
    assert!(none.is_empty());
    assert_eq!(none.bits(), 0);
    assert!(!none.contains(ServerType::Storage));

    let storages = none.insert(ServerType::Storage);
    assert!(!storages.is_empty());
    assert!(storages.contains(ServerType::Storage));
    assert!(!storages.contains(ServerType::Handler));
    assert_eq!(storages.bits(), 1);
    assert_eq!(storages.insert(ServerType::Storage), storages);

    let both = storages.insert(ServerType::Handler);
    assert_eq!(both, ServerTypeSet::all());
    assert_eq!(both.bits(), 3);

    let handlers = both.remove(ServerType::Storage);
    assert_eq!(handlers.bits(), 2);
    assert!(handlers.contains(ServerType::Handler));
    assert_eq!(handlers.remove(ServerType::Storage), handlers);
    assert_eq!(handlers.remove(ServerType::Handler), ServerTypeSet::empty());
}

#[test]
fn thread_set_is_full_only_with_both_threads() {
    let none = ThreadSet::empty();
    assert!(!none.is_full());
    let one = none.insert(ThreadSource::Handler);
    assert!(one.contains(ThreadSource::Handler));
    assert!(!one.contains(ThreadSource::IpcListener));
    assert!(!one.is_full());
    assert!(!one.insert(ThreadSource::Handler).is_full());
    assert!(one.insert(ThreadSource::IpcListener).is_full());
}
