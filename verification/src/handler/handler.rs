//! The control thread's decisions: what each entry of its inbox leads to,
//! how it meets the transport thread at start and end, and whom it tells
//! when it fails.

use crate::automat::{AutomatCommand, AutomatSignal, Effects, EffectsView, InnerAutomat};
use crate::handler::commands::{HandlerCommand, SenderCommand};
use crate::handler::error::Error;
use crate::channels::Channels;
use crate::handler::model::{
    agrees, agrees_but_for_channels, rebuffed, HandlerView, ReactionView, Verdict,
};
use crate::ipc_listener::commands::IpcListenerCommand;
use crate::messages::HandlerToBalancer;
use crate::sender::{Sender, SenderAction};
use crate::types::{Meeting, ReceiveMode, Received, ThreadSource};
use vstd::prelude::*;

verus! {

/// Whether the control thread goes on after an entry of its inbox.
#[derive(Clone, Copy, Debug, PartialEq, Eq, Structural)]
pub enum Flow {
    /// Look into the inbox again.
    Continue,
    /// The inbox is empty: do the work that waits, then start over.
    RoundOver,
    /// The node has been told to stop.
    Finish,
}

/// What one entry of the inbox asks of the outside.
#[derive(Clone, Debug, PartialEq, Eq)]
pub struct Reaction {
    pub flow: Flow,
    /// What the automaton sent and entered.
    pub effects: Effects,
    /// What the peer registry asks for.
    pub actions: Vec<SenderAction>,
    /// What the balancer is to be told.
    pub relay: Vec<HandlerToBalancer>,
}

impl View for Reaction {
    type V = ReactionView;

    open spec fn view(&self) -> ReactionView {
        ReactionView {
            flow: self.flow,
            effects: self.effects@,
            actions: self.actions@,
            relay: self.relay@,
        }
    }
}

impl Reaction {
    fn nothing(flow: Flow) -> (reaction: Reaction)
        ensures
            reaction@ == ReactionView::nothing(flow),
    {
        Reaction { flow, effects: Effects::new(), actions: Vec::new(), relay: Vec::new() }
    }

    fn relay(message: HandlerToBalancer) -> (reaction: Reaction)
        ensures
            reaction@ == ReactionView::relay(message),
    {
        let mut reaction = Reaction::nothing(Flow::Continue);
        reaction.relay.push(message);
        reaction
    }

    fn effects(effects: Effects) -> (reaction: Reaction)
        ensures
            reaction@ == ReactionView::effects(effects@),
    {
        Reaction { flow: Flow::Continue, effects, actions: Vec::new(), relay: Vec::new() }
    }

    fn actions(actions: Vec<SenderAction>) -> (reaction: Reaction)
        ensures
            reaction@ == ReactionView::actions(actions@),
    {
        Reaction { flow: Flow::Continue, effects: Effects::new(), actions, relay: Vec::new() }
    }
}

/// What the control thread holds.
pub struct Handler {
    automat: InnerAutomat,
    sender: Sender,
    wait_tasks: bool,
}

impl View for Handler {
    type V = HandlerView;

    closed spec fn view(&self) -> HandlerView {
        HandlerView { automat: self.automat@, sender: self.sender@, wait_tasks: self.wait_tasks }
    }
}

/// What the control thread does when its work has ended.
#[derive(Clone, Debug, PartialEq, Eq)]
pub struct Conclusion {
    /// What the transport thread is to be told, if anything.
    pub notify: Option<IpcListenerCommand>,
    /// Whether the thread then waits for the transport thread to finish.
    pub synchronize_finish: bool,
}

impl Handler {
    pub fn new() -> (handler: Handler)
        ensures
            handler@ == HandlerView::initial(),
            handler@.wf(),
    {
        Handler { automat: InnerAutomat::new(), sender: Sender::new(), wait_tasks: true }
    }

    pub fn automat(&self) -> (automat: &InnerAutomat)
        ensures
            automat@ == self@.automat,
    {
        &self.automat
    }

    pub fn sender(&self) -> (sender: &Sender)
        ensures
            sender@ == self@.sender,
    {
        &self.sender
    }

    /// The first thing the balancer is told.
    pub fn announcement() -> (announcement: HandlerToBalancer)
        ensures
            announcement == HandlerToBalancer::ServerStarted,
    {
        HandlerToBalancer::ServerStarted
    }

    /// A round of looks into the inbox begins. The thread waits for an
    /// entry exactly if no work waits for the thread.
    pub fn begin_round(&mut self, has_task: bool)
        ensures
            final(self)@ == (HandlerView { wait_tasks: !has_task, ..old(self)@ }),
            old(self)@.wf() ==> final(self)@.wf(),
    {
        self.wait_tasks = !has_task;
    }

    /// How the thread looks into its inbox next.
    pub fn receive_mode(&self) -> (mode: ReceiveMode)
        ensures
            mode == (if self@.wait_tasks {
                ReceiveMode::Block
            } else {
                ReceiveMode::Poll
            }),
    {
        if self.wait_tasks {
            ReceiveMode::Block
        } else {
            ReceiveMode::Poll
        }
    }

    /// Whether `command` can be handled in the present state.
    pub fn accepts(&self, command: &HandlerCommand) -> (accepted: bool)
        ensures
            accepted == self@.accepts(*command),
    {
        match command {
            HandlerCommand::AutomatSignal(signal) => self.automat.accepts_signal(signal),
            _ => true,
        }
    }

    /// Handles one look into the inbox: an entry as `lifecycle_handle`
    /// does, an empty inbox by ending the round, and an inbox that nobody
    /// can fill any more as a failure of the transport thread.
    pub fn step(&mut self, received: Received<HandlerCommand>) -> (result: Result<Reaction, Error>)
        requires
            received matches Received::Command(command) ==> old(self)@.accepts(command),
        ensures
            final(self)@ == old(self)@.step(received).next,
            agrees(result, old(self)@.step(received).verdict),
            old(self)@.wf() ==> final(self)@.wf(),
    {
        match received {
            Received::Command(command) => self.lifecycle_handle(command),
            Received::Empty => Ok(Reaction::nothing(Flow::RoundOver)),
            Received::Disconnected => Err(Error::IpcListenerThreadCrash(ThreadSource::Handler)),
        }
    }

    /// Handles one look into the inbox as `step` does, and puts what
    /// comes of it for the node's own threads into their inboxes: what
    /// the automaton sent, and what the peer registry reports. What is
    /// handed back is left to do outside. Where a channel does not take
    /// a message the control thread has failed; the automaton and the
    /// registry have changed all the same.
    pub fn dispatch(&mut self, received: Received<HandlerCommand>, channels: &Channels) -> (result:
        Result<Reaction, Error>)
        requires
            received matches Received::Command(command) ==> old(self)@.accepts(command),
        ensures
            final(self)@ == old(self)@.step(received).next,
            agrees_but_for_channels(result, old(self)@.step(received).verdict),
            old(self)@.wf() ==> final(self)@.wf(),
    {
        let Reaction { flow, effects, actions, relay } = self.step(received)?;
        let Effects { notifications, phases } = effects;
        match channels.deliver(notifications) {
            Ok(()) => {},
            Err(error) => {
                return Err(Error::from_transaction(error));
            },
        }
        match channels.report(actions) {
            Ok(actions) => Ok(
                Reaction {
                    flow,
                    effects: Effects { notifications: Vec::new(), phases },
                    actions,
                    relay,
                },
            ),
            Err(error) => Err(Error::from_transaction(error)),
        }
    }

    /// Handles one entry of the inbox. On a failure nothing has changed.
    pub fn lifecycle_handle(&mut self, command: HandlerCommand) -> (result: Result<Reaction, Error>)
        requires
            old(self)@.accepts(command),
        ensures
            final(self)@ == old(self)@.handle(command).next,
            agrees(result, old(self)@.handle(command).verdict),
            old(self)@.wf() ==> final(self)@.wf(),
    {
        match command {
            HandlerCommand::IpcListenerThreadCrash(source) => Err(
                Error::IpcListenerThreadCrash(source),
            ),
            HandlerCommand::BalancerCrash(source) => Err(Error::BalancerCrash(source)),
            HandlerCommand::AutomatSignal(signal) => Ok(self.process_signal(signal)),
            HandlerCommand::AutomatCommand(command) => Ok(self.send_command(command)),
            HandlerCommand::Shutdown => Ok(Reaction::nothing(Flow::Finish)),
            HandlerCommand::Task => {
                self.wait_tasks = false;
                Ok(Reaction::nothing(Flow::Continue))
            },
            HandlerCommand::EstablishingConnection => Ok(
                Reaction::relay(HandlerToBalancer::ConnectionEstablished),
            ),
            HandlerCommand::AcceptConnection(
                server_type,
                server_id,
                connection_id,
                address,
                balancer_connection_id,
            ) => Ok(
                Reaction::actions(
                    self.sender.accept_connection(
                        server_type,
                        server_id,
                        connection_id,
                        address,
                        balancer_connection_id,
                    ),
                ),
            ),
            HandlerCommand::ConnectionAccepted(server_type, connection_id, set_connection_id) => Ok(
                Reaction::actions(
                    self.sender.connection_accepted(server_type, connection_id, set_connection_id),
                ),
            ),
            HandlerCommand::Connected(server_type, connection_id) => Ok(
                Reaction::actions(self.sender.connected(server_type, connection_id)),
            ),
            HandlerCommand::EachSecond => Ok(Reaction::relay(HandlerToBalancer::StillAlive)),
            HandlerCommand::Familiarize(familiarity_lists) => Ok(
                Reaction::actions(self.sender.familiarize(&*familiarity_lists)),
            ),
            HandlerCommand::FamiliarityFinished => Ok(
                Reaction::relay(HandlerToBalancer::FamiliarityFinished),
            ),
            HandlerCommand::SenderCommand(sender_command) => Ok(
                self.handle_sender_command(sender_command),
            ),
            _ => Err(Error::Other("Unexpected type of HandlerCommand".to_owned())),
        }
    }

    /// Takes a signal to the automaton.
    fn process_signal(&mut self, signal: AutomatSignal) -> (reaction: Reaction)
        requires
            old(self)@.automat.accepts(signal),
        ensures
            final(self)@ == (HandlerView {
                automat: old(self)@.automat.signal(signal).next,
                ..old(self)@
            }),
            reaction@ == ReactionView::effects(EffectsView::of(old(self)@.automat.signal(signal))),
            old(self)@.wf() ==> final(self)@.wf(),
    {
        let mut effects = Effects::new();
        self.automat.process_signal(signal, &mut effects);
        assert(effects@ =~= EffectsView::of(old(self)@.automat.signal(signal)));
        Reaction::effects(effects)
    }

    /// Hands a command to the automaton.
    fn send_command(&mut self, command: AutomatCommand) -> (reaction: Reaction)
        ensures
            final(self)@ == (HandlerView {
                automat: old(self)@.automat.submit(command).next,
                ..old(self)@
            }),
            reaction@ == ReactionView::effects(EffectsView::of(old(self)@.automat.submit(command))),
            old(self)@.wf() ==> final(self)@.wf(),
    {
        let mut effects = Effects::new();
        self.automat.send_command(command, &mut effects);
        assert(effects@ =~= EffectsView::of(old(self)@.automat.submit(command)));
        Reaction::effects(effects)
    }

    /// Handles a report of the peer registry.
    pub fn handle_sender_command(&mut self, sender_command: SenderCommand) -> (reaction: Reaction)
        ensures
            final(self)@ == old(self)@.handle_sender_command(sender_command).next,
            old(self)@.handle_sender_command(sender_command).verdict == Verdict::Done(reaction@),
            old(self)@.wf() ==> final(self)@.wf(),
    {
        match sender_command {
            SenderCommand::ConnectionFailed(server_type, connection_id, _) => Reaction::relay(
                HandlerToBalancer::connection_failed(server_type, connection_id),
            ),
            SenderCommand::AcceptConnectionFailed(server_type, connection_id, _) => Reaction::relay(
                HandlerToBalancer::connection_failed(server_type, connection_id),
            ),
            SenderCommand::TransactionFailed(_, _, _, _) => Reaction::nothing(Flow::Continue),
            SenderCommand::Connected(_, _, _, _) => Reaction::nothing(Flow::Continue),
            SenderCommand::ConnectedToServers(server_type) => self.process_signal(
                AutomatSignal::ConnectedToServers(server_type),
            ),
        }
    }

    /// What the control thread says to the transport thread when it is
    /// ready to work.
    pub fn setup_call() -> (call: IpcListenerCommand)
        ensures
            call == IpcListenerCommand::HandlerIsReady,
    {
        IpcListenerCommand::HandlerIsReady
    }

    /// What the control thread says to the transport thread when it has
    /// finished.
    pub fn finish_call() -> (call: IpcListenerCommand)
        ensures
            call == IpcListenerCommand::HandlerFinished,
    {
        IpcListenerCommand::HandlerFinished
    }

    /// How the meeting at the start ends for the control thread; `None`
    /// where what came has no business there.
    pub open spec fn setup_meeting(received: Option<HandlerCommand>) -> Option<Meeting> {
        match received {
            Some(HandlerCommand::IpcListenerIsReady) => Some(Meeting::Met),
            Some(HandlerCommand::IpcListenerSetupError) => Some(Meeting::Alone),
            None => Some(Meeting::Alone),
            Some(_) => None,
        }
    }

    /// How the meeting at the end ends for the control thread; `None`
    /// where what came has no business there.
    pub open spec fn finish_meeting(received: Option<HandlerCommand>) -> Option<Meeting> {
        match received {
            Some(HandlerCommand::IpcListenerFinished) => Some(Meeting::Met),
            None => Some(Meeting::Alone),
            Some(_) => None,
        }
    }

    /// How the meeting at the start ends; `received` is what the inbox
    /// gave after the call, `None` where nobody can fill the inbox any
    /// more. Where the transport thread reports that its setup failed,
    /// or is gone, the meeting is off and the control thread does not
    /// wait any longer.
    pub fn synchronize_setup(received: Option<HandlerCommand>) -> (result: Result<Meeting, Error>)
        ensures
            match Self::setup_meeting(received) {
                Some(meeting) => result == Ok::<Meeting, Error>(meeting),
                None => rebuffed(result),
            },
    {
        match received {
            Some(HandlerCommand::IpcListenerIsReady) => Ok(Meeting::Met),
            Some(HandlerCommand::IpcListenerSetupError) => Ok(Meeting::Alone),
            None => Ok(Meeting::Alone),
            Some(_) => Err(Error::Other("Unexpected type of HandlerCommand".to_owned())),
        }
    }

    /// How the meeting at the end ends; where the transport thread is
    /// gone, the control thread does not wait any longer.
    pub fn synchronize_finish(received: Option<HandlerCommand>) -> (result: Result<Meeting, Error>)
        ensures
            match Self::finish_meeting(received) {
                Some(meeting) => result == Ok::<Meeting, Error>(meeting),
                None => rebuffed(result),
            },
    {
        match received {
            Some(HandlerCommand::IpcListenerFinished) => Ok(Meeting::Met),
            None => Ok(Meeting::Alone),
            Some(_) => Err(Error::Other("Unexpected type of HandlerCommand".to_owned())),
        }
    }

    /// What the control thread does when its work has ended as `result`
    /// says.
    pub open spec fn conclusion(result: Result<(), Error>) -> Conclusion {
        match result {
            Ok(()) => Conclusion { notify: None, synchronize_finish: true },
            Err(Error::IpcListenerThreadCrash(_)) => Conclusion {
                notify: None,
                synchronize_finish: false,
            },
            Err(Error::BalancerCrash(_)) => Conclusion { notify: None, synchronize_finish: false },
            Err(Error::BalancerCrashed(_)) => Conclusion {
                notify: Some(IpcListenerCommand::BalancerCrash(ThreadSource::Handler)),
                synchronize_finish: true,
            },
            Err(_) => Conclusion {
                notify: Some(IpcListenerCommand::HandlerThreadCrash(ThreadSource::Handler)),
                synchronize_finish: true,
            },
        }
    }

    /// Decides what follows the end of the control thread's work. A
    /// failure that began on this side is told to the transport thread,
    /// once and with this thread as its origin, and the meeting at the
    /// end is still attempted. A failure that the transport thread
    /// reported is not sent back to it.
    pub fn conclude(result: &Result<(), Error>) -> (conclusion: Conclusion)
        ensures
            conclusion == Self::conclusion(*result),
    {
        match result {
            Ok(()) => Conclusion { notify: None, synchronize_finish: true },
            Err(Error::IpcListenerThreadCrash(_)) => Conclusion {
                notify: None,
                synchronize_finish: false,
            },
            Err(Error::BalancerCrash(_)) => Conclusion { notify: None, synchronize_finish: false },
            Err(Error::BalancerCrashed(_)) => Conclusion {
                notify: Some(IpcListenerCommand::BalancerCrash(ThreadSource::Handler)),
                synchronize_finish: true,
            },
            Err(_) => Conclusion {
                notify: Some(IpcListenerCommand::HandlerThreadCrash(ThreadSource::Handler)),
                synchronize_finish: true,
            },
        }
    }
}

} // verus!
