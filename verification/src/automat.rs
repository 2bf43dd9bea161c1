//! The node's lifecycle automaton: the one place that decides which state
//! the node is in, what the threads are told, and which command waits.

pub mod laws;
pub mod model;

use crate::automat::laws::{
    lemma_apply_keeps_well_formed, lemma_next_command_keeps_well_formed,
    lemma_step_keeps_well_formed,
};
use crate::automat::model::{types_to_meet, AutomatView, Input, StateView, Transition};
use crate::channels::Channels;
use crate::handler::commands::HandlerCommand;
use crate::ipc_listener::commands::IpcListenerCommand;
use crate::sender::FamiliarityLists;
use crate::types::{ServerType, ServerTypeSet, ThreadSet, ThreadSource};
use std::collections::VecDeque;
use vstd::prelude::*;

verus! {

/// A request to the automaton. It is carried out at once where the
/// automaton is idle, and waits its turn where it is not.
#[derive(Clone, Debug, PartialEq, Eq)]
pub enum AutomatCommand {
    GenerateMap(String),
    CloseMap,
    /// Stop the node; `true` asks for a restart afterwards.
    Shutdown(bool),
}

/// A fact reported to the automaton. It is taken at once.
#[derive(Clone, Debug, PartialEq, Eq)]
pub enum AutomatSignal {
    Familiarize(Box<FamiliarityLists>),
    ConnectedToServers(ServerType),
    ThreadIsReady(ThreadSource),
}

/// What a working node is doing.
#[derive(Clone, Copy, Debug, PartialEq, Eq, Structural)]
pub enum WorkingState {
    /// Idle: no map.
    Nope,
    MapGeneration,
    MapIsReady,
    Playing,
    MapClosing,
}

/// The node's lifecycle state.
#[derive(Clone, Copy, Debug, PartialEq, Eq, Structural)]
pub enum State {
    Initialization,
    /// Meeting the peers; the set holds the server types not yet met.
    Familiarity(ServerTypeSet),
    Working(WorkingState),
    Shutdown,
    Finished,
}

impl View for State {
    type V = StateView;

    open spec fn view(&self) -> StateView {
        match *self {
            State::Initialization => StateView::Initialization,
            State::Familiarity(pending) => StateView::Familiarity(pending@),
            State::Working(working) => StateView::Working(working),
            State::Shutdown => StateView::Shutdown,
            State::Finished => StateView::Finished,
        }
    }
}

/// Why an operation on the automaton, or the delivery of what it sent,
/// failed.
#[derive(Clone, Debug, PartialEq, Eq)]
pub enum TransactionError {
    /// The lock around the automaton is poisoned.
    Poisoned,
    /// The channel to one of the threads is broken.
    BrockenChannel,
    /// The connection to the balancer has failed: the cause, and the
    /// thread that saw it.
    BalancerCrash(String, ThreadSource),
}

/// A message from the automaton to one of the threads.
#[derive(Clone, Debug, PartialEq, Eq)]
pub enum Notification {
    IpcListener(IpcListenerCommand),
    Handler(HandlerCommand),
}

/// What one operation did besides changing the automaton.
#[derive(Clone, Debug, PartialEq, Eq)]
pub struct Effects {
    /// The messages to deliver, in this order.
    pub notifications: Vec<Notification>,
    /// The states the automaton entered, in this order.
    pub phases: Vec<State>,
}

/// What one operation did besides changing the automaton, as plain
/// values.
#[verifier::ext_equal]
pub struct EffectsView {
    pub notifications: Seq<Notification>,
    pub phases: Seq<StateView>,
}

impl EffectsView {
    /// `self` followed by what `transition` sent and entered.
    pub open spec fn with(self, transition: Transition) -> EffectsView {
        EffectsView {
            notifications: self.notifications + transition.notifications,
            phases: self.phases + transition.phases,
        }
    }

    /// Exactly what `transition` sent and entered.
    pub open spec fn of(transition: Transition) -> EffectsView {
        EffectsView { notifications: transition.notifications, phases: transition.phases }
    }
}

impl View for Effects {
    type V = EffectsView;

    open spec fn view(&self) -> EffectsView {
        EffectsView {
            notifications: self.notifications@,
            phases: self.phases@.map_values(|state: State| state@),
        }
    }
}

impl Effects {
    pub fn new() -> (effects: Effects)
        ensures
            effects@.notifications == Seq::<Notification>::empty(),
            effects@.phases == Seq::<StateView>::empty(),
    {
        let effects = Effects { notifications: Vec::new(), phases: Vec::new() };
        effects
    }

    fn notify(&mut self, notification: Notification)
        ensures
            final(self)@.notifications == old(self)@.notifications.push(notification),
            final(self)@.phases == old(self)@.phases,
    {
        self.notifications.push(notification);
    }

    fn enter(&mut self, state: State)
        ensures
            final(self)@.notifications == old(self)@.notifications,
            final(self)@.phases == old(self)@.phases.push(state@),
    {
        self.phases.push(state);
    }
}

/// The automaton proper: its state, and its operations as functions of
/// nothing but that state. What an operation has to say to the threads
/// is handed back to the caller.
pub struct InnerAutomat {
    state: State,
    thread_is_ready: ThreadSet,
    commands_queue: VecDeque<AutomatCommand>,
}

impl View for InnerAutomat {
    type V = AutomatView;

    closed spec fn view(&self) -> AutomatView {
        AutomatView {
            state: self.state@,
            ready: self.thread_is_ready@,
            queue: self.commands_queue@,
        }
    }
}

impl InnerAutomat {
    pub fn new() -> (automat: InnerAutomat)
        ensures
            automat@ == AutomatView::initial(),
            automat@.wf(),
    {
        InnerAutomat {
            state: State::Initialization,
            thread_is_ready: ThreadSet::empty(),
            commands_queue: VecDeque::with_capacity(16),
        }
    }

    pub fn state(&self) -> (state: State)
        ensures
            state@ == self@.state,
    {
        self.state
    }

    /// The commands that wait, oldest first.
    pub fn commands_queue(&self) -> (queue: &VecDeque<AutomatCommand>)
        ensures
            queue@ == self@.queue,
    {
        &self.commands_queue
    }

    /// Whether `thread` has reported the work in flight done.
    pub fn is_thread_ready(&self, thread: ThreadSource) -> (ready: bool)
        ensures
            ready == self@.ready.contains(thread),
    {
        self.thread_is_ready.contains(thread)
    }

    /// Whether a command that arrives now has to wait.
    pub fn is_processing_command(&self) -> (busy: bool)
        ensures
            busy == self@.is_processing_command(),
    {
        match self.state {
            State::Working(WorkingState::Nope) => false,
            State::Working(WorkingState::Playing) => false,
            _ => true,
        }
    }

    /// Whether `command` can be carried out in the present state.
    pub fn is_applicable(&self, command: &AutomatCommand) -> (applicable: bool)
        ensures
            applicable == self@.applicable(*command),
    {
        match command {
            AutomatCommand::Shutdown(_) => match self.state {
                State::Working(WorkingState::MapGeneration) => false,
                State::Working(WorkingState::MapClosing) => false,
                _ => true,
            },
            _ => match self.state {
                State::Working(WorkingState::Nope) => true,
                State::Working(WorkingState::MapIsReady) => true,
                State::Working(WorkingState::Playing) => true,
                _ => false,
            },
        }
    }

    /// Whether `signal` can be taken in the present state.
    pub fn accepts_signal(&self, signal: &AutomatSignal) -> (accepted: bool)
        ensures
            accepted == self@.accepts(*signal),
    {
        match signal {
            AutomatSignal::ThreadIsReady(thread) => {
                if self.thread_is_ready.insert(*thread).is_full() {
                    match self.state {
                        State::Working(WorkingState::MapGeneration) => true,
                        State::Working(WorkingState::MapClosing) => true,
                        _ => false,
                    }
                } else {
                    true
                }
            },
            _ => true,
        }
    }

    /// Puts `command` behind the commands that wait.
    pub fn enqueue(&mut self, command: AutomatCommand)
        ensures
            final(self)@ == old(self)@.enqueue(command),
            old(self)@.wf() ==> final(self)@.wf(),
    {
        self.commands_queue.push_back(command);
    }

    /// Hands `command` in. It is put behind the commands that wait while
    /// the automaton is busy, and carried out at once where it is not.
    pub fn send_command(&mut self, command: AutomatCommand, effects: &mut Effects)
        ensures
            final(self)@ == old(self)@.submit(command).next,
            final(effects)@ == old(effects)@.with(old(self)@.submit(command)),
            old(self)@.wf() ==> final(self)@.wf(),
    {
        if self.is_processing_command() {
            self.enqueue(command);
            assert(effects@ =~= old(effects)@.with(old(self)@.submit(command)));
        } else {
            self.process_command(command, effects);
        }
    }

    /// Carries `command` out now.
    pub fn process_command(&mut self, command: AutomatCommand, effects: &mut Effects)
        requires
            old(self)@.applicable(command),
        ensures
            final(self)@ == old(self)@.apply(command).next,
            final(effects)@ == old(effects)@.with(old(self)@.apply(command)),
            old(self)@.wf() ==> final(self)@.wf(),
        decreases old(self)@.queue.len(), 2nat,
    {
        proof {
            if self@.wf() {
                lemma_apply_keeps_well_formed(self@, command);
            }
        }
        match command {
            AutomatCommand::GenerateMap(map_name) => self.process_command_generate_map(
                map_name,
                effects,
            ),
            AutomatCommand::CloseMap => self.process_command_close_map(effects),
            AutomatCommand::Shutdown(restart) => self.process_command_shutdown(restart, effects),
        }
    }

    /// Takes the command at the head of the queue out and carries it out.
    pub fn process_next_command(&mut self, effects: &mut Effects)
        requires
            old(self)@.state.settled(),
        ensures
            final(self)@ == old(self)@.next_command().next,
            final(effects)@ == old(effects)@.with(old(self)@.next_command()),
            old(self)@.wf() ==> final(self)@.wf(),
        decreases old(self)@.queue.len(), 0nat,
    {
        proof {
            if self@.wf() {
                lemma_next_command_keeps_well_formed(self@);
            }
        }
        match self.commands_queue.pop_front() {
            Some(command) => self.process_command(command, effects),
            None => {},
        }
    }

    /// Takes `signal`.
    pub fn process_signal(&mut self, signal: AutomatSignal, effects: &mut Effects)
        requires
            old(self)@.accepts(signal),
        ensures
            final(self)@ == old(self)@.signal(signal).next,
            final(effects)@ == old(effects)@.with(old(self)@.signal(signal)),
            old(self)@.wf() ==> final(self)@.wf(),
    {
        proof {
            if self@.wf() {
                lemma_step_keeps_well_formed(self@, Input::Signal(signal));
            }
        }
        match signal {
            AutomatSignal::Familiarize(familiarity_lists) => self.process_signal_familiarize(
                familiarity_lists,
                effects,
            ),
            AutomatSignal::ConnectedToServers(server_type) => {
                self.process_signal_connected_to_servers(server_type, effects)
            },
            AutomatSignal::ThreadIsReady(thread) => self.process_signal_thread_is_ready(
                thread,
                effects,
            ),
        }
    }

    fn begin_generation(&mut self, map_name: String, effects: &mut Effects)
        ensures
            final(self)@ == old(self)@.begin_generation(map_name).next,
            final(effects)@ == old(effects)@.with(old(self)@.begin_generation(map_name)),
    {
        self.state = State::Working(WorkingState::MapGeneration);
        self.thread_is_ready = ThreadSet::empty();
        effects.enter(self.state);
        effects.notify(Notification::IpcListener(IpcListenerCommand::GenerateMap));
        effects.notify(Notification::Handler(HandlerCommand::GenerateMap(map_name)));
    }

    fn begin_closing(&mut self, effects: &mut Effects)
        ensures
            final(self)@ == old(self)@.begin_closing().next,
            final(effects)@ == old(effects)@.with(old(self)@.begin_closing()),
    {
        self.state = State::Working(WorkingState::MapClosing);
        self.thread_is_ready = ThreadSet::empty();
        effects.enter(self.state);
        effects.notify(Notification::IpcListener(IpcListenerCommand::CloseMap));
        effects.notify(Notification::Handler(HandlerCommand::CloseMap));
    }

    fn finish(&mut self, effects: &mut Effects)
        ensures
            final(self)@ == old(self)@.finish().next,
            final(effects)@ == old(effects)@.with(old(self)@.finish()),
    {
        self.state = State::Finished;
        effects.enter(self.state);
        effects.notify(Notification::IpcListener(IpcListenerCommand::Shutdown));
        effects.notify(Notification::Handler(HandlerCommand::Shutdown));
    }

    fn start_working(&mut self, effects: &mut Effects)
        ensures
            final(self)@ == old(self)@.start_working().next,
            final(effects)@ == old(effects)@.with(old(self)@.start_working()),
    {
        self.state = State::Working(WorkingState::Nope);
        effects.enter(self.state);
        effects.notify(Notification::Handler(HandlerCommand::FamiliarityFinished));
    }

    fn process_command_generate_map(&mut self, map_name: String, effects: &mut Effects)
        requires
            old(self)@.state.settled(),
        ensures
            final(self)@ == old(self)@.generate_map(map_name).next,
            final(effects)@ == old(effects)@.with(old(self)@.generate_map(map_name)),
    {
        match self.state {
            State::Working(WorkingState::Nope) => self.begin_generation(map_name, effects),
            _ => {
                self.commands_queue.push_front(AutomatCommand::GenerateMap(map_name));
                self.begin_closing(effects);
            },
        }
    }

    fn process_command_close_map(&mut self, effects: &mut Effects)
        requires
            old(self)@.state.settled(),
        ensures
            final(self)@ == old(self)@.close_map().next,
            final(effects)@ == old(effects)@.with(old(self)@.close_map()),
        decreases old(self)@.queue.len(), 1nat,
    {
        match self.state {
            State::Working(WorkingState::Nope) => self.process_next_command(effects),
            _ => self.begin_closing(effects),
        }
    }

    fn process_command_shutdown(&mut self, restart: bool, effects: &mut Effects)
        requires
            !old(self)@.state.in_flight(),
        ensures
            final(self)@ == old(self)@.shutdown(restart).next,
            final(effects)@ == old(effects)@.with(old(self)@.shutdown(restart)),
    {
        match self.state {
            State::Working(WorkingState::Nope) => self.finish(effects),
            State::Working(_) => {
                self.commands_queue.push_front(AutomatCommand::Shutdown(restart));
                self.begin_closing(effects);
            },
            State::Familiarity(_) => self.finish(effects),
            State::Initialization => self.finish(effects),
            _ => {},
        }
    }

    fn process_signal_familiarize(
        &mut self,
        familiarity_lists: Box<FamiliarityLists>,
        effects: &mut Effects,
    )
        ensures
            final(self)@ == old(self)@.familiarize(familiarity_lists).next,
            final(effects)@ == old(effects)@.with(old(self)@.familiarize(familiarity_lists)),
    {
        if let State::Finished = self.state {
            return ;
        }
        let mut to_meet = ServerTypeSet::empty();
        if familiarity_lists.storages.len() > 0 {
            to_meet = to_meet.insert(ServerType::Storage);
        }
        if familiarity_lists.handlers.len() > 0 {
            to_meet = to_meet.insert(ServerType::Handler);
        }
        assert(to_meet@ =~= types_to_meet(*familiarity_lists));
        if to_meet.is_empty() {
            self.start_working(effects);
        } else {
            self.state = State::Familiarity(to_meet);
            effects.enter(self.state);
            effects.notify(Notification::Handler(HandlerCommand::Familiarize(familiarity_lists)));
        }
    }

    fn process_signal_connected_to_servers(
        &mut self,
        server_type: ServerType,
        effects: &mut Effects,
    )
        ensures
            final(self)@ == old(self)@.connected_to_servers(server_type).next,
            final(effects)@ == old(effects)@.with(old(self)@.connected_to_servers(server_type)),
    {
        match self.state {
            State::Familiarity(pending) => {
                let left = pending.remove(server_type);
                if left.is_empty() {
                    self.start_working(effects);
                } else if pending.contains(server_type) {
                    self.state = State::Familiarity(left);
                    effects.enter(self.state);
                }
            },
            _ => {},
        }
    }

    fn process_signal_thread_is_ready(&mut self, thread: ThreadSource, effects: &mut Effects)
        requires
            old(self)@.accepts(AutomatSignal::ThreadIsReady(thread)),
        ensures
            final(self)@ == old(self)@.thread_is_ready(thread).next,
            final(effects)@ == old(effects)@.with(old(self)@.thread_is_ready(thread)),
    {
        self.thread_is_ready = self.thread_is_ready.insert(thread);
        if self.thread_is_ready.is_full() {
            match self.state {
                State::Working(WorkingState::MapGeneration) => {
                    self.state = State::Working(WorkingState::MapIsReady);
                    effects.enter(self.state);
                    effects.notify(Notification::Handler(HandlerCommand::MapGenerated));
                    self.process_next_command(effects);
                },
                _ => {
                    self.state = State::Working(WorkingState::Nope);
                    effects.enter(self.state);
                    effects.notify(Notification::Handler(HandlerCommand::MapClosed));
                    self.process_next_command(effects);
                },
            }
        }
    }
}

/// The automaton with its ways to the two threads: what it has to say is
/// put into their inboxes at once.
pub struct Automat {
    inner: InnerAutomat,
    channels: Channels,
}

impl View for Automat {
    type V = AutomatView;

    closed spec fn view(&self) -> AutomatView {
        self.inner@
    }
}

impl Automat {
    /// The automaton of a node that has just started.
    pub fn new(
        ipc_listener_sender: std::sync::mpsc::Sender<IpcListenerCommand>,
        handler_sender: std::sync::mpsc::Sender<HandlerCommand>,
    ) -> (automat: Automat)
        ensures
            automat@ == AutomatView::initial(),
            automat@.wf(),
    {
        Automat {
            inner: InnerAutomat::new(),
            channels: Channels::new(ipc_listener_sender, handler_sender),
        }
    }

    /// Hands `command` in. It is put behind the commands that wait while
    /// the automaton is busy, and carried out at once where it is not.
    /// The operation fails where a channel does not take a message; the
    /// automaton has changed all the same.
    pub fn send_command(&mut self, command: AutomatCommand) -> (result: Result<
        (),
        TransactionError,
    >)
        ensures
            final(self)@ == old(self)@.submit(command).next,
            result is Ok || result == Err::<(), TransactionError>(TransactionError::BrockenChannel),
            old(self)@.submit(command).notifications.len() == 0 ==> result is Ok,
            old(self)@.wf() ==> final(self)@.wf(),
    {
        let mut effects = Effects::new();
        self.inner.send_command(command, &mut effects);
        self.channels.deliver(effects.notifications)
    }

    /// Takes `signal`. The operation fails where a channel does not take
    /// a message; the automaton has changed all the same.
    pub fn process_signal(&mut self, signal: AutomatSignal) -> (result: Result<
        (),
        TransactionError,
    >)
        requires
            old(self)@.accepts(signal),
        ensures
            final(self)@ == old(self)@.signal(signal).next,
            result is Ok || result == Err::<(), TransactionError>(TransactionError::BrockenChannel),
            old(self)@.signal(signal).notifications.len() == 0 ==> result is Ok,
            old(self)@.wf() ==> final(self)@.wf(),
    {
        let mut effects = Effects::new();
        self.inner.process_signal(signal, &mut effects);
        self.channels.deliver(effects.notifications)
    }

    /// Whether `signal` can be taken in the present state.
    pub fn accepts_signal(&self, signal: &AutomatSignal) -> (accepted: bool)
        ensures
            accepted == self@.accepts(*signal),
    {
        self.inner.accepts_signal(signal)
    }

    pub fn get_state(&self) -> (state: State)
        ensures
            state@ == self@.state,
    {
        self.inner.state()
    }

    /// The automaton's data, to look at.
    pub fn inner(&self) -> (inner: &InnerAutomat)
        ensures
            inner@ == self@,
    {
        &self.inner
    }
}

} // verus!
