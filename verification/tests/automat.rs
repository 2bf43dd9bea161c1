use handler_node::automat::{
    Automat, AutomatCommand, AutomatSignal, Effects, InnerAutomat, Notification, State,
    TransactionError, WorkingState,
};
use handler_node::handler::HandlerCommand;
use handler_node::ipc_listener::IpcListenerCommand;
use handler_node::sender::{FamiliarityLists, Peer};
use handler_node::types::{ConnectionID, ServerType, ServerTypeSet, ThreadSource};

/// The automaton proper, each operation with what it sent and entered.
struct Pure {
    inner: InnerAutomat,
}

impl Pure {
    fn new() -> Pure {
        Pure { inner: InnerAutomat::new() }
    }

    fn send_command(&mut self, command: AutomatCommand) -> Effects {
        let mut effects = Effects::new();
        self.inner.send_command(command, &mut effects);
        effects
    }

    fn process_signal(&mut self, signal: AutomatSignal) -> Effects {
        assert!(self.inner.accepts_signal(&signal));
        let mut effects = Effects::new();
        self.inner.process_signal(signal, &mut effects);
        effects
    }

    fn accepts_signal(&self, signal: &AutomatSignal) -> bool {
        self.inner.accepts_signal(signal)
    }

    fn get_state(&self) -> State {
        self.inner.state()
    }

    fn inner(&self) -> &InnerAutomat {
        &self.inner
    }
}

fn peer(number: u64) -> Peer {
    Peer {
        server_id: number,
        connection_id: ConnectionID::new(number as usize, 1),
        address: format!("10.0.0.{}:1941", number),
    }
}

fn lists(storages: Vec<Peer>, handlers: Vec<Peer>) -> Box<FamiliarityLists> {
    Box::new(FamiliarityLists::new(storages, handlers))
}

fn only(server_type: ServerType) -> ServerTypeSet {
    ServerTypeSet::empty().insert(server_type)
}

fn ready(thread: ThreadSource) -> AutomatSignal {
    AutomatSignal::ThreadIsReady(thread)
}

fn to_ipc(command: IpcListenerCommand) -> Notification {
    Notification::IpcListener(command)
}

fn to_handler(command: HandlerCommand) -> Notification {
    Notification::Handler(command)
}

/// An automaton that has met everyone and is idle.
fn idle() -> Pure {
    let mut automat = Pure::new();
    automat.process_signal(AutomatSignal::Familiarize(lists(vec![], vec![])));
    assert_eq!(automat.get_state(), State::Working(WorkingState::Nope));
    automat
}

/// An automaton that generates the map `name`; no thread has reported.
fn generating(name: &str) -> Pure {
    let mut automat = idle();
    automat.send_command(AutomatCommand::GenerateMap(name.to_string()));
    assert_eq!(automat.get_state(), State::Working(WorkingState::MapGeneration));
    automat
}

/// An automaton with the map `name` ready and nothing waiting.
fn with_map(name: &str) -> Pure {
    let mut automat = generating(name);
    automat.process_signal(ready(ThreadSource::IpcListener));
    automat.process_signal(ready(ThreadSource::Handler));
    assert_eq!(automat.get_state(), State::Working(WorkingState::MapIsReady));
    automat
}

#[test]
fn new_automat_is_initializing_with_nothing_waiting() {
    let automat = Pure::new();
    assert_eq!(automat.get_state(), State::Initialization);
    assert!(automat.inner().commands_queue().is_empty());
    assert!(automat.inner().is_processing_command());
    assert!(!automat.inner().is_thread_ready(ThreadSource::IpcListener));
    assert!(!automat.inner().is_thread_ready(ThreadSource::Handler));
}

#[test]
fn familiarize_with_empty_lists_starts_work_in_the_same_call() {
    let mut automat = Pure::new();
    let effects = automat.process_signal(AutomatSignal::Familiarize(lists(vec![], vec![])));
    assert_eq!(automat.get_state(), State::Working(WorkingState::Nope));
    assert_eq!(effects.notifications, vec![to_handler(HandlerCommand::FamiliarityFinished)]);
    assert_eq!(effects.phases, vec![State::Working(WorkingState::Nope)]);
    // Reports that come afterwards change nothing.
    for server_type in [ServerType::Storage, ServerType::Handler] {
        let later = automat.process_signal(AutomatSignal::ConnectedToServers(server_type));
        assert_eq!(later, Effects::new());
        assert_eq!(automat.get_state(), State::Working(WorkingState::Nope));
    }
}

#[test]
fn familiarize_with_one_list_waits_for_that_type_only() {
    let mut automat = Pure::new();
    let named = lists(vec![peer(1), peer(2)], vec![]);
    let effects = automat.process_signal(AutomatSignal::Familiarize(named.clone()));
    assert_eq!(automat.get_state(), State::Familiarity(only(ServerType::Storage)));
    assert_eq!(effects.notifications, vec![to_handler(HandlerCommand::Familiarize(named))]);
    assert_eq!(effects.phases, vec![State::Familiarity(only(ServerType::Storage))]);

    let done = automat.process_signal(AutomatSignal::ConnectedToServers(ServerType::Storage));
    assert_eq!(automat.get_state(), State::Working(WorkingState::Nope));
    assert_eq!(done.notifications, vec![to_handler(HandlerCommand::FamiliarityFinished)]);

    let again = automat.process_signal(AutomatSignal::ConnectedToServers(ServerType::Storage));
    assert!(again.notifications.is_empty());
    assert_eq!(automat.get_state(), State::Working(WorkingState::Nope));
}

#[test]
fn familiarize_with_handlers_only_waits_for_handlers() {
    let mut automat = Pure::new();
    automat.process_signal(AutomatSignal::Familiarize(lists(vec![], vec![peer(7)])));
    assert_eq!(automat.get_state(), State::Familiarity(only(ServerType::Handler)));
    let other = automat.process_signal(AutomatSignal::ConnectedToServers(ServerType::Storage));
    assert_eq!(other, Effects::new());
    assert_eq!(automat.get_state(), State::Familiarity(only(ServerType::Handler)));
}

#[test]
fn familiarity_with_both_lists_ends_when_both_have_reported_in_either_order() {
    for (first, second) in [
        (ServerType::Storage, ServerType::Handler),
        (ServerType::Handler, ServerType::Storage),
    ] {
        let mut automat = Pure::new();
        automat.process_signal(AutomatSignal::Familiarize(lists(vec![peer(1)], vec![peer(2)])));
        assert_eq!(automat.get_state(), State::Familiarity(ServerTypeSet::all()));

        let one = automat.process_signal(AutomatSignal::ConnectedToServers(first));
        assert!(one.notifications.is_empty());
        assert_eq!(automat.get_state(), State::Familiarity(only(second)));

        let repeated = automat.process_signal(AutomatSignal::ConnectedToServers(first));
        assert_eq!(repeated, Effects::new());
        assert_eq!(automat.get_state(), State::Familiarity(only(second)));

        let both = automat.process_signal(AutomatSignal::ConnectedToServers(second));
        assert_eq!(both.notifications, vec![to_handler(HandlerCommand::FamiliarityFinished)]);
        assert_eq!(automat.get_state(), State::Working(WorkingState::Nope));
    }
}

#[test]
fn generate_map_from_idle_tells_both_threads() {
    let mut automat = idle();
    automat.process_signal(ready(ThreadSource::IpcListener));
    let effects = automat.send_command(AutomatCommand::GenerateMap("m1".to_string()));
    assert_eq!(automat.get_state(), State::Working(WorkingState::MapGeneration));
    assert_eq!(
        effects.notifications,
        vec![
            to_ipc(IpcListenerCommand::GenerateMap),
            to_handler(HandlerCommand::GenerateMap("m1".to_string())),
        ]
    );
    assert_eq!(effects.phases, vec![State::Working(WorkingState::MapGeneration)]);
    // Readiness starts from nothing.
    assert!(!automat.inner().is_thread_ready(ThreadSource::IpcListener));
    assert!(!automat.inner().is_thread_ready(ThreadSource::Handler));
}

#[test]
fn close_map_that_arrives_during_generation_waits_for_the_map() {
    let mut automat = generating("m1");
    let queued = automat.send_command(AutomatCommand::CloseMap);
    assert_eq!(queued, Effects::new());
    assert_eq!(automat.get_state(), State::Working(WorkingState::MapGeneration));
    assert_eq!(automat.inner().commands_queue().len(), 1);

    let first = automat.process_signal(ready(ThreadSource::Handler));
    assert_eq!(first, Effects::new());
    assert_eq!(automat.get_state(), State::Working(WorkingState::MapGeneration));

    let last = automat.process_signal(ready(ThreadSource::IpcListener));
    assert_eq!(automat.get_state(), State::Working(WorkingState::MapClosing));
    assert_eq!(
        last.phases,
        vec![State::Working(WorkingState::MapIsReady), State::Working(WorkingState::MapClosing)]
    );
    assert_eq!(
        last.notifications,
        vec![
            to_handler(HandlerCommand::MapGenerated),
            to_ipc(IpcListenerCommand::CloseMap),
            to_handler(HandlerCommand::CloseMap),
        ]
    );
    assert!(automat.inner().commands_queue().is_empty());
}

#[test]
fn a_thread_that_reports_twice_does_not_end_the_work() {
    let mut automat = generating("m1");
    for _ in 0..3 {
        let effects = automat.process_signal(ready(ThreadSource::IpcListener));
        assert_eq!(effects, Effects::new());
        assert_eq!(automat.get_state(), State::Working(WorkingState::MapGeneration));
        assert!(automat.inner().is_thread_ready(ThreadSource::IpcListener));
        assert!(!automat.inner().is_thread_ready(ThreadSource::Handler));
    }
    let effects = automat.process_signal(ready(ThreadSource::Handler));
    assert_eq!(effects.notifications, vec![to_handler(HandlerCommand::MapGenerated)]);
    assert_eq!(automat.get_state(), State::Working(WorkingState::MapIsReady));
}

#[test]
fn shutdown_during_generation_lets_generation_end_then_closes_then_finishes() {
    let mut automat = generating("m1");
    let mut phases = Vec::new();

    let queued = automat.send_command(AutomatCommand::Shutdown(false));
    assert_eq!(queued, Effects::new());
    assert_eq!(automat.get_state(), State::Working(WorkingState::MapGeneration));

    phases.extend(automat.process_signal(ready(ThreadSource::IpcListener)).phases);
    assert_eq!(automat.get_state(), State::Working(WorkingState::MapGeneration));
    let generated = automat.process_signal(ready(ThreadSource::Handler));
    assert_eq!(
        generated.notifications,
        vec![
            to_handler(HandlerCommand::MapGenerated),
            to_ipc(IpcListenerCommand::CloseMap),
            to_handler(HandlerCommand::CloseMap),
        ]
    );
    phases.extend(generated.phases);
    assert_eq!(automat.get_state(), State::Working(WorkingState::MapClosing));
    assert_eq!(
        automat.inner().commands_queue().iter().cloned().collect::<Vec<_>>(),
        vec![AutomatCommand::Shutdown(false)]
    );

    phases.extend(automat.process_signal(ready(ThreadSource::Handler)).phases);
    assert_eq!(automat.get_state(), State::Working(WorkingState::MapClosing));
    let closed = automat.process_signal(ready(ThreadSource::IpcListener));
    assert_eq!(
        closed.notifications,
        vec![
            to_handler(HandlerCommand::MapClosed),
            to_ipc(IpcListenerCommand::Shutdown),
            to_handler(HandlerCommand::Shutdown),
        ]
    );
    phases.extend(closed.phases);
    assert_eq!(automat.get_state(), State::Finished);
    assert_eq!(
        phases,
        vec![
            State::Working(WorkingState::MapIsReady),
            State::Working(WorkingState::MapClosing),
            State::Working(WorkingState::Nope),
            State::Finished,
        ]
    );
    assert!(automat.inner().commands_queue().is_empty());
}

#[test]
fn commands_handed_in_while_busy_wait_in_the_order_of_arrival() {
    let mut automat = generating("m1");
    let commands = vec![
        AutomatCommand::CloseMap,
        AutomatCommand::GenerateMap("m2".to_string()),
        AutomatCommand::Shutdown(true),
        AutomatCommand::CloseMap,
        AutomatCommand::GenerateMap("m3".to_string()),
    ];
    for command in commands.iter() {
        let effects = automat.send_command(command.clone());
        assert_eq!(effects, Effects::new());
        assert_eq!(automat.get_state(), State::Working(WorkingState::MapGeneration));
    }
    assert_eq!(automat.inner().commands_queue().iter().cloned().collect::<Vec<_>>(), commands);
}

#[test]
fn commands_that_wait_are_served_from_the_head() {
    let mut automat = generating("m1");
    automat.send_command(AutomatCommand::GenerateMap("m2".to_string()));
    automat.send_command(AutomatCommand::Shutdown(true));
    automat.process_signal(ready(ThreadSource::IpcListener));

    // The map is ready; the next map asks for this one to be closed first
    // and waits at the head of the queue.
    let generated = automat.process_signal(ready(ThreadSource::Handler));
    assert_eq!(automat.get_state(), State::Working(WorkingState::MapClosing));
    assert_eq!(
        generated.notifications,
        vec![
            to_handler(HandlerCommand::MapGenerated),
            to_ipc(IpcListenerCommand::CloseMap),
            to_handler(HandlerCommand::CloseMap),
        ]
    );
    assert_eq!(
        automat.inner().commands_queue().iter().cloned().collect::<Vec<_>>(),
        vec![AutomatCommand::GenerateMap("m2".to_string()), AutomatCommand::Shutdown(true)]
    );

    automat.process_signal(ready(ThreadSource::IpcListener));
    let closed = automat.process_signal(ready(ThreadSource::Handler));
    assert_eq!(automat.get_state(), State::Working(WorkingState::MapGeneration));
    assert_eq!(
        closed.notifications,
        vec![
            to_handler(HandlerCommand::MapClosed),
            to_ipc(IpcListenerCommand::GenerateMap),
            to_handler(HandlerCommand::GenerateMap("m2".to_string())),
        ]
    );
    assert_eq!(
        automat.inner().commands_queue().iter().cloned().collect::<Vec<_>>(),
        vec![AutomatCommand::Shutdown(true)]
    );
}

#[test]
fn generate_map_with_a_map_in_place_closes_it_first() {
    let mut automat = with_map("m1");
    assert!(automat.inner().is_processing_command());
    let mut inner = InnerAutomat::new();
    let mut effects = Effects::new();
    assert!(!inner.is_applicable(&AutomatCommand::GenerateMap("m2".to_string())));
    inner.process_signal(AutomatSignal::Familiarize(lists(vec![], vec![])), &mut effects);
    inner.process_command(AutomatCommand::GenerateMap("m1".to_string()), &mut effects);
    inner.process_signal(ready(ThreadSource::IpcListener), &mut effects);
    inner.process_signal(ready(ThreadSource::Handler), &mut effects);
    assert_eq!(inner.state(), automat.get_state());

    let mut effects = Effects::new();
    assert!(inner.is_applicable(&AutomatCommand::GenerateMap("m2".to_string())));
    inner.process_command(AutomatCommand::GenerateMap("m2".to_string()), &mut effects);
    assert_eq!(inner.state(), State::Working(WorkingState::MapClosing));
    assert_eq!(
        effects.notifications,
        vec![to_ipc(IpcListenerCommand::CloseMap), to_handler(HandlerCommand::CloseMap)]
    );
    assert_eq!(
        inner.commands_queue().iter().cloned().collect::<Vec<_>>(),
        vec![AutomatCommand::GenerateMap("m2".to_string())]
    );
    // While the map is ready, a command handed in has to wait.
    let waiting = automat.send_command(AutomatCommand::GenerateMap("m2".to_string()));
    assert_eq!(waiting, Effects::new());
    assert_eq!(automat.get_state(), State::Working(WorkingState::MapIsReady));
}

#[test]
fn shutdown_with_a_map_in_place_goes_to_the_head_of_the_queue() {
    let mut inner = InnerAutomat::new();
    let mut effects = Effects::new();
    inner.process_signal(AutomatSignal::Familiarize(lists(vec![], vec![])), &mut effects);
    inner.process_command(AutomatCommand::GenerateMap("m1".to_string()), &mut effects);
    inner.process_signal(ready(ThreadSource::IpcListener), &mut effects);
    inner.process_signal(ready(ThreadSource::Handler), &mut effects);
    inner.enqueue(AutomatCommand::GenerateMap("m2".to_string()));

    let mut effects = Effects::new();
    inner.process_command(AutomatCommand::Shutdown(true), &mut effects);
    assert_eq!(inner.state(), State::Working(WorkingState::MapClosing));
    assert_eq!(
        inner.commands_queue().iter().cloned().collect::<Vec<_>>(),
        vec![AutomatCommand::Shutdown(true), AutomatCommand::GenerateMap("m2".to_string())]
    );
    inner.process_signal(ready(ThreadSource::IpcListener), &mut effects);
    inner.process_signal(ready(ThreadSource::Handler), &mut effects);
    assert_eq!(inner.state(), State::Finished);
    assert_eq!(
        inner.commands_queue().iter().cloned().collect::<Vec<_>>(),
        vec![AutomatCommand::GenerateMap("m2".to_string())]
    );
}

#[test]
fn shutdown_from_idle_finishes_at_once() {
    let mut automat = idle();
    let effects = automat.send_command(AutomatCommand::Shutdown(false));
    assert_eq!(automat.get_state(), State::Finished);
    assert_eq!(
        effects.notifications,
        vec![to_ipc(IpcListenerCommand::Shutdown), to_handler(HandlerCommand::Shutdown)]
    );
    assert_eq!(effects.phases, vec![State::Finished]);
}

#[test]
fn shutdown_handed_in_before_the_node_works_waits() {
    let mut automat = Pure::new();
    let effects = automat.send_command(AutomatCommand::Shutdown(false));
    assert_eq!(effects, Effects::new());
    assert_eq!(automat.get_state(), State::Initialization);
    assert_eq!(automat.inner().commands_queue().len(), 1);
}

#[test]
fn shutdown_carried_out_before_the_node_works_finishes() {
    let mut initializing = InnerAutomat::new();
    let mut effects = Effects::new();
    assert!(initializing.is_applicable(&AutomatCommand::Shutdown(false)));
    initializing.process_command(AutomatCommand::Shutdown(false), &mut effects);
    assert_eq!(initializing.state(), State::Finished);
    assert_eq!(
        effects.notifications,
        vec![to_ipc(IpcListenerCommand::Shutdown), to_handler(HandlerCommand::Shutdown)]
    );

    let mut familiarizing = InnerAutomat::new();
    let mut effects = Effects::new();
    familiarizing
        .process_signal(AutomatSignal::Familiarize(lists(vec![peer(1)], vec![])), &mut effects);
    let mut effects = Effects::new();
    familiarizing.process_command(AutomatCommand::Shutdown(true), &mut effects);
    assert_eq!(familiarizing.state(), State::Finished);
    assert_eq!(effects.phases, vec![State::Finished]);

    // Carried out a second time, it changes nothing.
    let mut effects = Effects::new();
    familiarizing.process_command(AutomatCommand::Shutdown(true), &mut effects);
    assert_eq!(familiarizing.state(), State::Finished);
    assert_eq!(effects, Effects::new());
}

#[test]
fn shutdown_cannot_be_carried_out_while_a_map_is_in_the_making() {
    let automat = generating("m1");
    assert!(!automat.inner().is_applicable(&AutomatCommand::Shutdown(false)));
    assert!(!automat.inner().is_applicable(&AutomatCommand::CloseMap));
    assert!(!automat.inner().is_applicable(&AutomatCommand::GenerateMap("m2".to_string())));
}

#[test]
fn close_map_without_a_map_takes_the_next_command() {
    let mut automat = Pure::new();
    automat.send_command(AutomatCommand::CloseMap);
    automat.send_command(AutomatCommand::GenerateMap("m1".to_string()));
    automat.send_command(AutomatCommand::Shutdown(false));
    automat.process_signal(AutomatSignal::Familiarize(lists(vec![], vec![])));
    assert_eq!(automat.get_state(), State::Working(WorkingState::Nope));
    assert_eq!(automat.inner().commands_queue().len(), 3);

    // Nothing to close: the first command that is not a `CloseMap` is
    // carried out.
    let effects = automat.send_command(AutomatCommand::CloseMap);
    assert_eq!(automat.get_state(), State::Working(WorkingState::MapGeneration));
    assert_eq!(
        effects.notifications,
        vec![
            to_ipc(IpcListenerCommand::GenerateMap),
            to_handler(HandlerCommand::GenerateMap("m1".to_string())),
        ]
    );
    assert_eq!(
        automat.inner().commands_queue().iter().cloned().collect::<Vec<_>>(),
        vec![AutomatCommand::Shutdown(false)]
    );
}

#[test]
fn close_map_without_a_map_and_nothing_waiting_does_nothing() {
    let mut automat = idle();
    let effects = automat.send_command(AutomatCommand::CloseMap);
    assert_eq!(effects, Effects::new());
    assert_eq!(automat.get_state(), State::Working(WorkingState::Nope));
}

#[test]
fn close_map_with_a_map_closes_it_and_returns_to_idle() {
    let mut inner = InnerAutomat::new();
    let mut effects = Effects::new();
    inner.process_signal(AutomatSignal::Familiarize(lists(vec![], vec![])), &mut effects);
    inner.process_command(AutomatCommand::GenerateMap("m1".to_string()), &mut effects);
    inner.process_signal(ready(ThreadSource::Handler), &mut effects);
    inner.process_signal(ready(ThreadSource::IpcListener), &mut effects);

    let mut effects = Effects::new();
    inner.process_command(AutomatCommand::CloseMap, &mut effects);
    assert_eq!(inner.state(), State::Working(WorkingState::MapClosing));
    assert!(!inner.is_thread_ready(ThreadSource::Handler));
    inner.process_signal(ready(ThreadSource::Handler), &mut effects);
    inner.process_signal(ready(ThreadSource::IpcListener), &mut effects);
    assert_eq!(inner.state(), State::Working(WorkingState::Nope));
    assert_eq!(
        effects.notifications,
        vec![
            to_ipc(IpcListenerCommand::CloseMap),
            to_handler(HandlerCommand::CloseMap),
            to_handler(HandlerCommand::MapClosed),
        ]
    );
    assert!(!inner.is_processing_command());
}

#[test]
fn a_finished_automaton_stays_finished() {
    let mut automat = idle();
    automat.send_command(AutomatCommand::Shutdown(true));
    assert_eq!(automat.get_state(), State::Finished);

    let familiarize = AutomatSignal::Familiarize(lists(vec![peer(1)], vec![peer(2)]));
    assert!(automat.accepts_signal(&familiarize));
    assert_eq!(automat.process_signal(familiarize), Effects::new());
    assert_eq!(automat.get_state(), State::Finished);

    assert_eq!(
        automat.process_signal(AutomatSignal::ConnectedToServers(ServerType::Handler)),
        Effects::new()
    );
    assert_eq!(automat.send_command(AutomatCommand::GenerateMap("m".to_string())), Effects::new());
    assert_eq!(automat.send_command(AutomatCommand::Shutdown(false)), Effects::new());
    assert_eq!(automat.get_state(), State::Finished);
}

#[test]
fn readiness_is_accepted_only_for_work_in_flight() {
    let mut automat = Pure::new();
    assert!(automat.accepts_signal(&ready(ThreadSource::IpcListener)));
    automat.process_signal(ready(ThreadSource::IpcListener));
    assert!(automat.accepts_signal(&ready(ThreadSource::IpcListener)));
    // The last report would end work that nobody began.
    assert!(!automat.accepts_signal(&ready(ThreadSource::Handler)));

    let mut generating = generating("m1");
    assert!(generating.accepts_signal(&ready(ThreadSource::Handler)));
    generating.process_signal(ready(ThreadSource::Handler));
    assert!(generating.accepts_signal(&ready(ThreadSource::IpcListener)));
    generating.process_signal(ready(ThreadSource::IpcListener));
    // With the map ready, both threads still count as having reported.
    assert!(!generating.accepts_signal(&ready(ThreadSource::IpcListener)));
    assert!(generating.accepts_signal(&AutomatSignal::ConnectedToServers(ServerType::Storage)));
}

#[test]
fn familiarize_starts_a_new_round_unless_the_node_is_finished() {
    let mut automat = idle();
    automat.process_signal(AutomatSignal::Familiarize(lists(vec![], vec![peer(3)])));
    assert_eq!(automat.get_state(), State::Familiarity(only(ServerType::Handler)));
    automat.process_signal(AutomatSignal::Familiarize(lists(vec![peer(1)], vec![peer(3)])));
    assert_eq!(automat.get_state(), State::Familiarity(ServerTypeSet::all()));
}

#[test]
fn the_next_command_is_the_oldest_one_that_waits() {
    let mut inner = InnerAutomat::new();
    let mut effects = Effects::new();
    inner.process_signal(AutomatSignal::Familiarize(lists(vec![], vec![])), &mut effects);
    inner.enqueue(AutomatCommand::GenerateMap("first".to_string()));
    inner.enqueue(AutomatCommand::GenerateMap("second".to_string()));

    let mut effects = Effects::new();
    inner.process_next_command(&mut effects);
    assert_eq!(inner.state(), State::Working(WorkingState::MapGeneration));
    assert_eq!(
        effects.notifications,
        vec![
            to_ipc(IpcListenerCommand::GenerateMap),
            to_handler(HandlerCommand::GenerateMap("first".to_string())),
        ]
    );
    assert_eq!(
        inner.commands_queue().iter().cloned().collect::<Vec<_>>(),
        vec![AutomatCommand::GenerateMap("second".to_string())]
    );

    // With nothing waiting, nothing happens.
    let mut idle = InnerAutomat::new();
    let mut effects = Effects::new();
    idle.process_signal(AutomatSignal::Familiarize(lists(vec![], vec![])), &mut effects);
    let mut effects = Effects::new();
    idle.process_next_command(&mut effects);
    assert_eq!(effects, Effects::new());
    assert_eq!(idle.state(), State::Working(WorkingState::Nope));
}

#[test]
fn the_wired_automaton_puts_its_messages_into_the_inboxes() {
    let (ipc_listener_sender, ipc_listener) = std::sync::mpsc::channel();
    let (handler_sender, handler) = std::sync::mpsc::channel();
    let mut automat = Automat::new(ipc_listener_sender, handler_sender);
    assert_eq!(automat.get_state(), State::Initialization);

    // Peers {storages: [1, 2], handlers: []}.
    let named = lists(vec![peer(1), peer(2)], vec![]);
    assert_eq!(automat.process_signal(AutomatSignal::Familiarize(named.clone())), Ok(()));
    assert_eq!(automat.get_state(), State::Familiarity(only(ServerType::Storage)));
    assert_eq!(
        automat.process_signal(AutomatSignal::ConnectedToServers(ServerType::Storage)),
        Ok(())
    );
    assert_eq!(automat.get_state(), State::Working(WorkingState::Nope));
    assert_eq!(
        handler.try_iter().collect::<Vec<_>>(),
        vec![HandlerCommand::Familiarize(named), HandlerCommand::FamiliarityFinished]
    );

    // A map is generated; a `CloseMap` that arrives meanwhile waits.
    assert_eq!(automat.send_command(AutomatCommand::GenerateMap("m1".to_string())), Ok(()));
    assert_eq!(automat.send_command(AutomatCommand::CloseMap), Ok(()));
    assert_eq!(automat.get_state(), State::Working(WorkingState::MapGeneration));
    assert_eq!(automat.inner().commands_queue().len(), 1);
    assert!(automat.accepts_signal(&ready(ThreadSource::IpcListener)));
    assert_eq!(automat.process_signal(ready(ThreadSource::IpcListener)), Ok(()));
    assert_eq!(automat.process_signal(ready(ThreadSource::Handler)), Ok(()));
    assert_eq!(automat.get_state(), State::Working(WorkingState::MapClosing));
    assert_eq!(
        ipc_listener.try_iter().collect::<Vec<_>>(),
        vec![IpcListenerCommand::GenerateMap, IpcListenerCommand::CloseMap]
    );
    assert_eq!(
        handler.try_iter().collect::<Vec<_>>(),
        vec![
            HandlerCommand::GenerateMap("m1".to_string()),
            HandlerCommand::MapGenerated,
            HandlerCommand::CloseMap,
        ]
    );
}

#[test]
fn the_wired_automaton_fails_where_a_channel_is_broken() {
    let (ipc_listener_sender, ipc_listener) = std::sync::mpsc::channel();
    let (handler_sender, handler) = std::sync::mpsc::channel();
    let mut automat = Automat::new(ipc_listener_sender, handler_sender);
    assert_eq!(automat.process_signal(AutomatSignal::Familiarize(lists(vec![], vec![]))), Ok(()));
    drop(ipc_listener);

    // The automaton has moved on although nobody could be told.
    assert_eq!(
        automat.send_command(AutomatCommand::GenerateMap("m1".to_string())),
        Err(TransactionError::BrockenChannel)
    );
    assert_eq!(automat.get_state(), State::Working(WorkingState::MapGeneration));
    // Nothing to send, nothing to fail.
    assert_eq!(automat.send_command(AutomatCommand::Shutdown(false)), Ok(()));
    assert_eq!(automat.process_signal(ready(ThreadSource::Handler)), Ok(()));
    // The message for the control thread still goes out; the next one
    // is for the transport thread.
    assert_eq!(
        automat.process_signal(ready(ThreadSource::IpcListener)),
        Err(TransactionError::BrockenChannel)
    );
    assert_eq!(
        handler.try_iter().collect::<Vec<_>>(),
        vec![HandlerCommand::FamiliarityFinished, HandlerCommand::MapGenerated]
    );
}
