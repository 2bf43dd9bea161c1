//! The channels between the threads, as far as the node writes to them:
//! what the automaton and the peer registry have to say is put into the
//! inboxes here.

use crate::automat::{Notification, TransactionError};
use crate::handler::commands::HandlerCommand;
use crate::ipc_listener::commands::IpcListenerCommand;
use crate::sender::SenderAction;
use vstd::prelude::*;

verus! {

/// The sending half of a channel of the standard library. Nothing is
/// known of what is inside.
#[verifier::external_type_specification]
#[verifier::external_body]
#[verifier::reject_recursive_types(T)]
pub struct ExSender<T>(std::sync::mpsc::Sender<T>);

/// `std::sync::mpsc::Sender::send`: puts `value` into the channel. Whether
/// that succeeds depends on the receiver, which may be gone; a value that
/// could not be sent is handed back as it is.
#[verifier::external_body]
fn send_or_return<T>(sender: &std::sync::mpsc::Sender<T>, value: T) -> (result: Result<(), T>)
    ensures
        result matches Err(back) ==> back == value,
{
    match sender.send(value) {
        Ok(()) => Ok(()),
        Err(std::sync::mpsc::SendError(back)) => Err(back),
    }
}

/// What becomes of a message that was handed to a channel: it is on its
/// way, or the channel is broken.
pub open spec fn sent<T>(outcome: Result<(), T>) -> Result<(), TransactionError> {
    match outcome {
        Ok(()) => Ok(()),
        Err(_) => Err(TransactionError::BrockenChannel),
    }
}

/// Says what becomes of a message that was handed to a channel.
pub fn delivery<T>(outcome: Result<(), T>) -> (result: Result<(), TransactionError>)
    ensures
        result == sent(outcome),
{
    match outcome {
        Ok(()) => Ok(()),
        Err(_) => Err(TransactionError::BrockenChannel),
    }
}

/// Puts `value` into the channel. It fails exactly if the channel does
/// not take the value, which means that nobody will ever read it.
pub fn channel_send<T>(sender: &std::sync::mpsc::Sender<T>, value: T) -> (result: Result<
    (),
    TransactionError,
>)
    ensures
        result is Ok || result == Err::<(), TransactionError>(TransactionError::BrockenChannel),
{
    delivery(send_or_return(sender, value))
}

/// The ways from the automaton to the two threads.
pub struct Channels {
    ipc_listener_sender: std::sync::mpsc::Sender<IpcListenerCommand>,
    handler_sender: std::sync::mpsc::Sender<HandlerCommand>,
}

impl Channels {
    pub fn new(
        ipc_listener_sender: std::sync::mpsc::Sender<IpcListenerCommand>,
        handler_sender: std::sync::mpsc::Sender<HandlerCommand>,
    ) -> (channels: Channels)
        ensures
            channels@ == (ChannelsView { ipc_listener_sender, handler_sender }),
    { Channels { ipc_listener_sender, handler_sender } }
    /// Sends one message to the thread it is meant for.
    pub fn notify(&self, notification: Notification) -> (result: Result<(), TransactionError>)
        ensures
            result is Ok || result == Err::<(), TransactionError>(TransactionError::BrockenChannel),
    {
        match notification {
            Notification::IpcListener(command) => channel_send(&self.ipc_listener_sender, command),
            Notification::Handler(command) => channel_send(&self.handler_sender, command),
        }
    }

    /// Sends the messages in their order, and stops at the first that its
    /// channel does not take. With nothing to send nothing can fail.
    pub fn deliver(&self, notifications: Vec<Notification>) -> (result: Result<
        (),
        TransactionError,
    >)
        ensures
            result is Ok || result == Err::<(), TransactionError>(TransactionError::BrockenChannel),
            notifications@.len() == 0 ==> result is Ok,
    {
        let mut waiting = notifications;
        while waiting.len() > 0
            invariant
                notifications@.len() == 0 ==> waiting@.len() == 0,
            decreases waiting.len(),
        {
            let notification = waiting.remove(0);
            match self.notify(notification) {
                Ok(()) => {},
                Err(error) => {
                    return Err(error);
                },
            }
        }
        Ok(())
    }

    /// Puts the reports among `actions` into the control thread's inbox,
    /// in their order, and hands back what is left to do outside: the
    /// other actions, in their order. It stops at the first report that
    /// the channel does not take. With no report among the actions
    /// nothing can fail.
    pub fn report(&self, actions: Vec<SenderAction>) -> (result: Result<
        Vec<SenderAction>,
        TransactionError,
    >)
        ensures
            result matches Ok(left) ==> left@ == outstanding(actions@),
            result matches Err(error) ==> error == TransactionError::BrockenChannel,
            outstanding(actions@) == actions@ ==> result is Ok,
    {
        let mut waiting = actions;
        let mut left: Vec<SenderAction> = Vec::new();
        proof {
            lemma_outstanding_is_no_longer(actions@);
        }
        while waiting.len() > 0
            invariant
                left@ + outstanding(waiting@) == outstanding(actions@),
                outstanding(actions@).len() == actions@.len() ==> outstanding(waiting@).len()
                    == waiting@.len(),
            decreases waiting.len(),
        {
            proof {
                lemma_outstanding_is_no_longer(waiting@.drop_first());
            }
            let action = waiting.remove(0);
            match action {
                SenderAction::Report(command) => {
                    match channel_send(&self.handler_sender, HandlerCommand::SenderCommand(command)) {
                        Ok(()) => {},
                        Err(error) => {
                            return Err(error);
                        },
                    }
                },
                action => {
                    left.push(action);
                    assert(left@ + outstanding(waiting@) == outstanding(actions@));
                },
            }
        }
        Ok(left)
    }
}

/// What is left of `actions` to do outside once the reports have been
/// put into the control thread's inbox.
pub open spec fn outstanding(actions: Seq<SenderAction>) -> Seq<SenderAction>
    decreases actions.len(),
{
    if actions.len() == 0 {
        actions
    } else if actions[0] is Report {
        outstanding(actions.drop_first())
    } else {
        seq![actions[0]] + outstanding(actions.drop_first())
    }
}

proof fn lemma_outstanding_is_no_longer(actions: Seq<SenderAction>)
    ensures
        outstanding(actions).len() <= actions.len(),
    decreases actions.len(),
{
    if actions.len() > 0 {
        lemma_outstanding_is_no_longer(actions.drop_first());
    }
}

/// What a `Channels` holds: the sending half of the channel into the
/// transport thread's inbox, and the one into the control thread's.
pub struct ChannelsView {
    pub ipc_listener_sender: std::sync::mpsc::Sender<IpcListenerCommand>,
    pub handler_sender: std::sync::mpsc::Sender<HandlerCommand>,
}

impl View for Channels {
    type V = ChannelsView;

    closed spec fn view(&self) -> ChannelsView {
        ChannelsView {
            ipc_listener_sender: self.ipc_listener_sender,
            handler_sender: self.handler_sender,
        }
    }
}

} // verus!
