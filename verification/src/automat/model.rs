//! The automaton as mathematics: its state as plain values, and each
//! operation as a function from state and input to the next state, the
//! messages sent and the states passed through.

use crate::automat::{AutomatCommand, AutomatSignal, Notification, WorkingState};
use crate::handler::commands::HandlerCommand;
use crate::ipc_listener::commands::IpcListenerCommand;
use crate::sender::FamiliarityLists;
use crate::types::{every_thread, no_server_type, ServerType, ThreadSource};
use vstd::prelude::*;

verus! {

/// The lifecycle state, with the server types still to be met as a set.
#[verifier::ext_equal]
pub enum StateView {
    Initialization,
    Familiarity(Set<ServerType>),
    Working(WorkingState),
    Shutdown,
    Finished,
}

/// The server types whose list names at least one peer.
pub open spec fn types_to_meet(lists: FamiliarityLists) -> Set<ServerType> {
    Set::new(
        |t: ServerType|
            match t {
                ServerType::Storage => lists.storages@.len() > 0,
                ServerType::Handler => lists.handlers@.len() > 0,
            },
    )
}

impl StateView {
    /// A map is being generated or closed: the threads are at work and
    /// have not all reported back.
    pub open spec fn in_flight(self) -> bool {
        self == StateView::Working(WorkingState::MapGeneration) || self == StateView::Working(
            WorkingState::MapClosing,
        )
    }

    /// A working state in which no thread is at work on a map.
    pub open spec fn settled(self) -> bool {
        self == StateView::Working(WorkingState::Nope) || self == StateView::Working(
            WorkingState::MapIsReady,
        ) || self == StateView::Working(WorkingState::Playing)
    }

    /// A map exists: it has to be closed before anything else is done.
    pub open spec fn has_map(self) -> bool {
        self == StateView::Working(WorkingState::MapIsReady) || self == StateView::Working(
            WorkingState::Playing,
        )
    }
}

/// Anything that can be handed to the automaton.
pub enum Input {
    Command(AutomatCommand),
    Signal(AutomatSignal),
}

/// What the automaton holds.
#[verifier::ext_equal]
pub struct AutomatView {
    pub state: StateView,
    /// The threads that have reported the current piece of work done.
    pub ready: Set<ThreadSource>,
    /// Commands that arrived while the automaton was busy, oldest first.
    pub queue: Seq<AutomatCommand>,
}

/// The result of one operation.
#[verifier::ext_equal]
pub struct Transition {
    pub next: AutomatView,
    /// The messages sent, in the order of sending.
    pub notifications: Seq<Notification>,
    /// The states entered, in the order of entering.
    pub phases: Seq<StateView>,
}

impl Transition {
    /// Nothing happens.
    pub open spec fn stay(at: AutomatView) -> Transition {
        Transition { next: at, notifications: Seq::empty(), phases: Seq::empty() }
    }

    /// `self` with `notifications` and `phases` put in front of its own.
    pub open spec fn after(
        self,
        notifications: Seq<Notification>,
        phases: Seq<StateView>,
    ) -> Transition {
        Transition {
            next: self.next,
            notifications: notifications + self.notifications,
            phases: phases + self.phases,
        }
    }
}

impl AutomatView {
    /// The automaton of a node that has just started.
    pub open spec fn initial() -> AutomatView {
        AutomatView {
            state: StateView::Initialization,
            ready: Set::empty(),
            queue: Seq::empty(),
        }
    }

    /// What holds of every automaton that began as `initial()`, whatever
    /// it was given since: while the node meets its peers someone is
    /// still to be met, and while a map is generated or closed some
    /// thread has not reported.
    pub open spec fn wf(self) -> bool {
        &&& self.state matches StateView::Familiarity(pending) ==> !no_server_type(pending)
        &&& self.state.in_flight() ==> !every_thread(self.ready)
    }

    /// A command that arrives now has to wait.
    pub open spec fn is_processing_command(self) -> bool {
        self.state != StateView::Working(WorkingState::Nope) && self.state != StateView::Working(
            WorkingState::Playing,
        )
    }

    /// `command` can be carried out in the present state.
    pub open spec fn applicable(self, command: AutomatCommand) -> bool {
        match command {
            AutomatCommand::GenerateMap(_) => self.state.settled(),
            AutomatCommand::CloseMap => self.state.settled(),
            AutomatCommand::Shutdown(_) => !self.state.in_flight(),
        }
    }

    /// `signal` can be taken in the present state. The threads report
    /// readiness only for work that was handed to them: the last report
    /// must find a map being generated or closed.
    pub open spec fn accepts(self, signal: AutomatSignal) -> bool {
        match signal {
            AutomatSignal::ThreadIsReady(thread) => every_thread(self.ready.insert(thread))
                ==> self.state.in_flight(),
            _ => true,
        }
    }

    /// The same automaton with `command` waiting behind the others.
    pub open spec fn enqueue(self, command: AutomatCommand) -> AutomatView {
        AutomatView { queue: self.queue.push(command), ..self }
    }

    /// The same automaton with `command` waiting ahead of the others.
    pub open spec fn requeue(self, command: AutomatCommand) -> AutomatView {
        AutomatView { queue: seq![command] + self.queue, ..self }
    }

    /// Both threads are told to generate the map `map_name`.
    pub open spec fn begin_generation(self, map_name: String) -> Transition {
        Transition {
            next: AutomatView {
                state: StateView::Working(WorkingState::MapGeneration),
                ready: Set::empty(),
                queue: self.queue,
            },
            notifications: seq![
                Notification::IpcListener(IpcListenerCommand::GenerateMap),
                Notification::Handler(HandlerCommand::GenerateMap(map_name)),
            ],
            phases: seq![StateView::Working(WorkingState::MapGeneration)],
        }
    }

    /// Both threads are told to close the map.
    pub open spec fn begin_closing(self) -> Transition {
        Transition {
            next: AutomatView {
                state: StateView::Working(WorkingState::MapClosing),
                ready: Set::empty(),
                queue: self.queue,
            },
            notifications: seq![
                Notification::IpcListener(IpcListenerCommand::CloseMap),
                Notification::Handler(HandlerCommand::CloseMap),
            ],
            phases: seq![StateView::Working(WorkingState::MapClosing)],
        }
    }

    /// Both threads are told to stop.
    pub open spec fn finish(self) -> Transition {
        Transition {
            next: AutomatView { state: StateView::Finished, ..self },
            notifications: seq![
                Notification::IpcListener(IpcListenerCommand::Shutdown),
                Notification::Handler(HandlerCommand::Shutdown),
            ],
            phases: seq![StateView::Finished],
        }
    }

    /// `GenerateMap(map_name)` carried out. With a map in place the map is
    /// closed first, and the command waits at the head of the queue.
    pub open spec fn generate_map(self, map_name: String) -> Transition {
        if self.state == StateView::Working(WorkingState::Nope) {
            self.begin_generation(map_name)
        } else if self.state.has_map() {
            self.requeue(AutomatCommand::GenerateMap(map_name)).begin_closing()
        } else {
            Transition::stay(self)
        }
    }

    /// `Shutdown(restart)` carried out. With a map in place the map is
    /// closed first, and the command waits at the head of the queue.
    pub open spec fn shutdown(self, restart: bool) -> Transition {
        match self.state {
            StateView::Initialization => self.finish(),
            StateView::Familiarity(_) => self.finish(),
            StateView::Working(WorkingState::Nope) => self.finish(),
            StateView::Working(WorkingState::MapIsReady) => self.requeue(
                AutomatCommand::Shutdown(restart),
            ).begin_closing(),
            StateView::Working(WorkingState::Playing) => self.requeue(
                AutomatCommand::Shutdown(restart),
            ).begin_closing(),
            _ => Transition::stay(self),
        }
    }

    /// `CloseMap` carried out. Without a map there is nothing to close, and
    /// the next command that waits is taken instead.
    pub open spec fn close_map(self) -> Transition
        decreases self.queue.len(), 1nat,
    {
        if self.state == StateView::Working(WorkingState::Nope) {
            self.next_command()
        } else if self.state.has_map() {
            self.begin_closing()
        } else {
            Transition::stay(self)
        }
    }

    /// The command at the head of the queue is taken out and carried out.
    pub open spec fn next_command(self) -> Transition
        decreases self.queue.len(), 0nat,
    {
        if self.queue.len() == 0 {
            Transition::stay(self)
        } else {
            AutomatView { queue: self.queue.drop_first(), ..self }.apply(self.queue[0])
        }
    }

    /// `command` carried out now.
    pub open spec fn apply(self, command: AutomatCommand) -> Transition
        decreases self.queue.len(), 2nat,
    {
        match command {
            AutomatCommand::GenerateMap(map_name) => self.generate_map(map_name),
            AutomatCommand::CloseMap => self.close_map(),
            AutomatCommand::Shutdown(restart) => self.shutdown(restart),
        }
    }

    /// `command` handed in: it waits while the automaton is busy, and is
    /// carried out at once where it is not.
    pub open spec fn submit(self, command: AutomatCommand) -> Transition {
        if self.is_processing_command() {
            Transition::stay(self.enqueue(command))
        } else {
            self.apply(command)
        }
    }

    /// The node has met everyone: it starts to work, and the balancer is
    /// to be told.
    pub open spec fn start_working(self) -> Transition {
        Transition {
            next: AutomatView { state: StateView::Working(WorkingState::Nope), ..self },
            notifications: seq![Notification::Handler(HandlerCommand::FamiliarityFinished)],
            phases: seq![StateView::Working(WorkingState::Nope)],
        }
    }

    /// The balancer has named the peers to meet. A finished automaton
    /// stays finished.
    pub open spec fn familiarize(self, lists: Box<FamiliarityLists>) -> Transition {
        if self.state == StateView::Finished {
            Transition::stay(self)
        } else if no_server_type(types_to_meet(*lists)) {
            self.start_working()
        } else {
            Transition {
                next: AutomatView {
                    state: StateView::Familiarity(types_to_meet(*lists)),
                    ..self
                },
                notifications: seq![Notification::Handler(HandlerCommand::Familiarize(lists))],
                phases: seq![StateView::Familiarity(types_to_meet(*lists))],
            }
        }
    }

    /// Every peer of `server_type` is connected.
    pub open spec fn connected_to_servers(self, server_type: ServerType) -> Transition {
        match self.state {
            StateView::Familiarity(pending) => {
                if no_server_type(pending.remove(server_type)) {
                    self.start_working()
                } else if pending.contains(server_type) {
                    Transition {
                        next: AutomatView {
                            state: StateView::Familiarity(pending.remove(server_type)),
                            ..self
                        },
                        notifications: Seq::empty(),
                        phases: seq![StateView::Familiarity(pending.remove(server_type))],
                    }
                } else {
                    Transition::stay(self)
                }
            },
            _ => Transition::stay(self),
        }
    }

    /// `thread` has done its part of the work in flight. The last report
    /// ends the work, and the next command that waits is taken.
    pub open spec fn thread_is_ready(self, thread: ThreadSource) -> Transition {
        let reported = AutomatView { ready: self.ready.insert(thread), ..self };
        if !every_thread(reported.ready) {
            Transition::stay(reported)
        } else if self.state == StateView::Working(WorkingState::MapGeneration) {
            AutomatView {
                state: StateView::Working(WorkingState::MapIsReady),
                ..reported
            }.next_command().after(
                seq![Notification::Handler(HandlerCommand::MapGenerated)],
                seq![StateView::Working(WorkingState::MapIsReady)],
            )
        } else if self.state == StateView::Working(WorkingState::MapClosing) {
            AutomatView {
                state: StateView::Working(WorkingState::Nope),
                ..reported
            }.next_command().after(
                seq![Notification::Handler(HandlerCommand::MapClosed)],
                seq![StateView::Working(WorkingState::Nope)],
            )
        } else {
            Transition::stay(reported)
        }
    }

    /// `signal` taken.
    pub open spec fn signal(self, signal: AutomatSignal) -> Transition {
        match signal {
            AutomatSignal::Familiarize(lists) => self.familiarize(lists),
            AutomatSignal::ConnectedToServers(server_type) => self.connected_to_servers(
                server_type,
            ),
            AutomatSignal::ThreadIsReady(thread) => self.thread_is_ready(thread),
        }
    }

    /// One input handed in.
    pub open spec fn step(self, input: Input) -> Transition {
        match input {
            Input::Command(command) => self.submit(command),
            Input::Signal(signal) => self.signal(signal),
        }
    }

    /// `inputs` handed in one after the other.
    pub open spec fn run(self, inputs: Seq<Input>) -> Transition
        decreases inputs.len(),
    {
        if inputs.len() == 0 {
            Transition::stay(self)
        } else {
            let first = self.step(inputs[0]);
            first.next.run(inputs.drop_first()).after(first.notifications, first.phases)
        }
    }
}

} // verus!
