//! The control thread as mathematics: what it holds as plain values, and
//! the handling of one entry of its inbox as a function from them.

use crate::automat::model::AutomatView;
use crate::automat::{AutomatSignal, EffectsView};
use crate::channels::outstanding;
use crate::handler::commands::{HandlerCommand, SenderCommand};
use crate::handler::error::Error;
use crate::handler::handler::{Flow, Reaction};
use crate::messages::HandlerToBalancer;
use crate::sender::model::SenderView;
use crate::sender::SenderAction;
use crate::types::{Received, ThreadSource};
use vstd::prelude::*;

verus! {

/// What one entry of the inbox asks of the outside, as plain values.
#[verifier::ext_equal]
pub struct ReactionView {
    pub flow: Flow,
    pub effects: EffectsView,
    pub actions: Seq<SenderAction>,
    pub relay: Seq<HandlerToBalancer>,
}

impl ReactionView {
    /// Nothing is asked, and the thread goes on as `flow` says.
    pub open spec fn nothing(flow: Flow) -> ReactionView {
        ReactionView {
            flow,
            effects: EffectsView { notifications: Seq::empty(), phases: Seq::empty() },
            actions: Seq::empty(),
            relay: Seq::empty(),
        }
    }

    /// Only the balancer is told something.
    pub open spec fn relay(message: HandlerToBalancer) -> ReactionView {
        ReactionView { relay: seq![message], ..Self::nothing(Flow::Continue) }
    }

    /// Only the automaton did something.
    pub open spec fn effects(effects: EffectsView) -> ReactionView {
        ReactionView { effects, ..Self::nothing(Flow::Continue) }
    }

    /// Only the peer registry asks for something.
    pub open spec fn actions(actions: Seq<SenderAction>) -> ReactionView {
        ReactionView { actions, ..Self::nothing(Flow::Continue) }
    }
}

/// How the handling of one entry ends.
#[verifier::ext_equal]
pub enum Verdict {
    Done(ReactionView),
    Failed(Error),
    /// The entry has no business in the inbox at this time.
    Unexpected,
}

/// What the control thread holds, as plain values.
#[verifier::ext_equal]
pub struct HandlerView {
    pub automat: AutomatView,
    pub sender: SenderView,
    /// The thread waits for the next entry instead of taking what is
    /// there.
    pub wait_tasks: bool,
}

/// The result of handling one entry.
#[verifier::ext_equal]
pub struct Handling {
    pub next: HandlerView,
    pub verdict: Verdict,
}

/// What is said of an entry that has no business in the inbox.
pub open spec fn unexpected_command() -> Seq<char> {
    "Unexpected type of HandlerCommand"@
}

impl HandlerView {
    /// The control thread of a node that has just started.
    pub open spec fn initial() -> HandlerView {
        HandlerView {
            automat: AutomatView::initial(),
            sender: SenderView::initial(),
            wait_tasks: true,
        }
    }

    /// What holds of every control thread that began as `initial()`: its
    /// automaton and its peer registry are well formed.
    pub open spec fn wf(self) -> bool {
        self.automat.wf() && self.sender.wf()
    }

    /// `command` can be handled in the present state: a signal for the
    /// automaton must be one that the automaton accepts.
    pub open spec fn accepts(self, command: HandlerCommand) -> bool {
        match command {
            HandlerCommand::AutomatSignal(signal) => self.automat.accepts(signal),
            _ => true,
        }
    }

    /// Nothing changes and `reaction` is asked for.
    pub open spec fn done(self, reaction: ReactionView) -> Handling {
        Handling { next: self, verdict: Verdict::Done(reaction) }
    }

    /// A report of the peer registry is handled.
    pub open spec fn handle_sender_command(self, command: SenderCommand) -> Handling {
        match command {
            SenderCommand::ConnectionFailed(server_type, connection_id, _) => self.done(
                ReactionView::relay(HandlerToBalancer::ConnectionFailed(server_type, connection_id)),
            ),
            SenderCommand::AcceptConnectionFailed(server_type, connection_id, _) => self.done(
                ReactionView::relay(HandlerToBalancer::ConnectionFailed(server_type, connection_id)),
            ),
            SenderCommand::TransactionFailed(_, _, _, _) => self.done(
                ReactionView::nothing(Flow::Continue),
            ),
            SenderCommand::Connected(_, _, _, _) => self.done(
                ReactionView::nothing(Flow::Continue),
            ),
            SenderCommand::ConnectedToServers(server_type) => {
                let transition = self.automat.signal(
                    AutomatSignal::ConnectedToServers(server_type),
                );
                Handling {
                    next: HandlerView { automat: transition.next, ..self },
                    verdict: Verdict::Done(ReactionView::effects(EffectsView::of(transition))),
                }
            },
        }
    }

    /// One entry of the inbox is handled.
    pub open spec fn handle(self, command: HandlerCommand) -> Handling {
        match command {
            HandlerCommand::IpcListenerThreadCrash(source) => Handling {
                next: self,
                verdict: Verdict::Failed(Error::IpcListenerThreadCrash(source)),
            },
            HandlerCommand::BalancerCrash(source) => Handling {
                next: self,
                verdict: Verdict::Failed(Error::BalancerCrash(source)),
            },
            HandlerCommand::AutomatSignal(signal) => {
                let transition = self.automat.signal(signal);
                Handling {
                    next: HandlerView { automat: transition.next, ..self },
                    verdict: Verdict::Done(ReactionView::effects(EffectsView::of(transition))),
                }
            },
            HandlerCommand::AutomatCommand(command) => {
                let transition = self.automat.submit(command);
                Handling {
                    next: HandlerView { automat: transition.next, ..self },
                    verdict: Verdict::Done(ReactionView::effects(EffectsView::of(transition))),
                }
            },
            HandlerCommand::Shutdown => self.done(ReactionView::nothing(Flow::Finish)),
            HandlerCommand::Task => Handling {
                next: HandlerView { wait_tasks: false, ..self },
                verdict: Verdict::Done(ReactionView::nothing(Flow::Continue)),
            },
            HandlerCommand::EstablishingConnection => self.done(
                ReactionView::relay(HandlerToBalancer::ConnectionEstablished),
            ),
            HandlerCommand::AcceptConnection(
                server_type,
                server_id,
                connection_id,
                address,
                balancer_connection_id,
            ) => {
                let handshake = self.sender.of(server_type).accept_connection(
                    server_id,
                    connection_id,
                    address,
                    balancer_connection_id,
                );
                Handling {
                    next: HandlerView {
                        sender: self.sender.with(server_type, handshake.next),
                        ..self
                    },
                    verdict: Verdict::Done(ReactionView::actions(handshake.actions)),
                }
            },
            HandlerCommand::ConnectionAccepted(server_type, connection_id, set_connection_id) => {
                let handshake = self.sender.of(server_type).connection_accepted(
                    connection_id,
                    set_connection_id,
                );
                Handling {
                    next: HandlerView {
                        sender: self.sender.with(server_type, handshake.next),
                        ..self
                    },
                    verdict: Verdict::Done(ReactionView::actions(handshake.actions)),
                }
            },
            HandlerCommand::Connected(server_type, connection_id) => {
                let handshake = self.sender.of(server_type).connected(connection_id);
                Handling {
                    next: HandlerView {
                        sender: self.sender.with(server_type, handshake.next),
                        ..self
                    },
                    verdict: Verdict::Done(ReactionView::actions(handshake.actions)),
                }
            },
            HandlerCommand::EachSecond => self.done(
                ReactionView::relay(HandlerToBalancer::StillAlive),
            ),
            HandlerCommand::Familiarize(lists) => {
                let round = self.sender.familiarize(*lists);
                Handling {
                    next: HandlerView { sender: round.0, ..self },
                    verdict: Verdict::Done(ReactionView::actions(round.1)),
                }
            },
            HandlerCommand::FamiliarityFinished => self.done(
                ReactionView::relay(HandlerToBalancer::FamiliarityFinished),
            ),
            HandlerCommand::SenderCommand(command) => self.handle_sender_command(command),
            _ => Handling { next: self, verdict: Verdict::Unexpected },
        }
    }

    /// One look into the inbox is handled.
    pub open spec fn step(self, received: Received<HandlerCommand>) -> Handling {
        match received {
            Received::Command(command) => self.handle(command),
            Received::Empty => self.done(ReactionView::nothing(Flow::RoundOver)),
            Received::Disconnected => Handling {
                next: self,
                verdict: Verdict::Failed(Error::IpcListenerThreadCrash(ThreadSource::Handler)),
            },
        }
    }
}

/// `result` is the failure that says that what came has no business
/// there.
pub open spec fn rebuffed<T>(result: Result<T, Error>) -> bool {
    result matches Err(Error::Other(message)) && message@ == unexpected_command()
}

/// What is left of `reaction` to do outside once the messages for the
/// node's own threads are in their inboxes.
pub open spec fn left_outside(reaction: ReactionView) -> ReactionView {
    ReactionView {
        flow: reaction.flow,
        effects: EffectsView { notifications: Seq::empty(), phases: reaction.effects.phases },
        actions: outstanding(reaction.actions),
        relay: reaction.relay,
    }
}

/// `reaction` holds nothing for the node's own threads.
pub open spec fn all_outside(reaction: ReactionView) -> bool {
    reaction.effects.notifications.len() == 0 && outstanding(reaction.actions) == reaction.actions
}

/// `result` is what `verdict` says once the messages for the node's own
/// threads are in their inboxes, or says that one of them could not be
/// put there.
pub open spec fn agrees_but_for_channels(result: Result<Reaction, Error>, verdict: Verdict) -> bool {
    match verdict {
        Verdict::Done(reaction) => {
            ||| result matches Ok(done) && done@ == left_outside(reaction)
            ||| result == Err::<Reaction, Error>(Error::BrockenChannel) && !all_outside(reaction)
        },
        Verdict::Failed(error) => result == Err::<Reaction, Error>(error),
        Verdict::Unexpected => rebuffed(result),
    }
}

/// `result` is what `verdict` says.
pub open spec fn agrees(result: Result<Reaction, Error>, verdict: Verdict) -> bool {
    match verdict {
        Verdict::Done(reaction) => result matches Ok(done) && done@ == reaction,
        Verdict::Failed(error) => result == Err::<Reaction, Error>(error),
        Verdict::Unexpected => rebuffed(result),
    }
}

} // verus!
