//! What holds between the two threads: how they meet at start and end,
//! and how a failure of one reaches the other.

use crate::automat::laws::lemma_step_keeps_well_formed;
use crate::automat::model::Input;
use crate::automat::AutomatSignal;
use crate::handler::commands::{HandlerCommand, SenderCommand};
use crate::handler::error::Error as HandlerError;
use crate::handler::handler::{Flow, Handler};
use crate::handler::model::{HandlerView, Verdict};
use crate::ipc_listener::commands::IpcListenerCommand;
use crate::ipc_listener::error::Error as IpcListenerError;
use crate::ipc_listener::ipc_listener::{IpcListener, Listening};
use crate::sender::laws::{
    lemma_accept_connection_is_idempotent, lemma_familiarize_keeps_well_formed,
    lemma_one_word_per_round,
};
use crate::types::{Meeting, Received, ThreadSource};
use vstd::prelude::*;

verus! {

/// The control thread tells the transport thread of a failure exactly if
/// the failure began on its own side; what it tells names the control
/// thread as the origin. Exactly then it still attempts the meeting at
/// the end.
pub proof fn lemma_handler_escalates_its_own_failures(error: HandlerError)
    ensures
        Handler::conclusion(Err(error)).notify is Some <==> !error.spec_came_from_outside(),
        Handler::conclusion(Err(error)).synchronize_finish <==> !error.spec_came_from_outside(),
        Handler::conclusion(Err(error)).notify matches Some(word) ==> (word
            == IpcListenerCommand::BalancerCrash(ThreadSource::Handler) || word
            == IpcListenerCommand::HandlerThreadCrash(ThreadSource::Handler)),
{
}

/// The transport thread tells the control thread of a failure exactly if
/// the failure began on its own side; what it tells names the transport
/// thread as the origin. Exactly then it still attempts the meeting at
/// the end.
pub proof fn lemma_ipc_listener_escalates_its_own_failures(error: IpcListenerError)
    ensures
        IpcListener::conclusion(Err(error)).notify is Some <==> !error.spec_came_from_outside(),
        IpcListener::conclusion(Err(error)).synchronize_finish <==> !error.spec_came_from_outside(),
        IpcListener::conclusion(Err(error)).notify matches Some(word) ==> (word
            == HandlerCommand::BalancerCrash(ThreadSource::IpcListener) || word
            == HandlerCommand::IpcListenerThreadCrash(ThreadSource::IpcListener)),
{
}

/// A failure that the control thread tells the transport thread ends the
/// transport thread's work, keeps its origin, and is not told back.
pub proof fn lemma_handler_failure_is_not_echoed(error: HandlerError)
    requires
        Handler::conclusion(Err(error)).notify is Some,
    ensures
        ({
            let word = Handler::conclusion(Err(error)).notify->Some_0;
            let heard = IpcListener::listening(Received::Command(word));
            &&& heard is Err
            &&& heard->Err_0.spec_came_from_outside()
            &&& (heard->Err_0 == IpcListenerError::HandlerThreadCrash(ThreadSource::Handler)
                || heard->Err_0 == IpcListenerError::BalancerCrash(ThreadSource::Handler))
            &&& IpcListener::conclusion(Err(heard->Err_0)).notify is None
        }),
{
}

/// A failure that the transport thread tells the control thread ends the
/// control thread's work whatever state it is in, keeps its origin, and
/// is not told back.
pub proof fn lemma_ipc_listener_failure_is_not_echoed(error: IpcListenerError, handler: HandlerView)
    requires
        IpcListener::conclusion(Err(error)).notify is Some,
    ensures
        ({
            let word = IpcListener::conclusion(Err(error)).notify->Some_0;
            let heard = handler.step(Received::Command(word));
            &&& heard.next == handler
            &&& heard.verdict is Failed
            &&& heard.verdict->Failed_0.spec_came_from_outside()
            &&& (heard.verdict->Failed_0 == HandlerError::IpcListenerThreadCrash(
                ThreadSource::IpcListener,
            ) || heard.verdict->Failed_0 == HandlerError::BalancerCrash(ThreadSource::IpcListener))
            &&& Handler::conclusion(Err(heard.verdict->Failed_0)).notify is None
        }),
{
}

/// The control thread ends its rounds without a failure exactly when it
/// finds the word to stop in its inbox: not when the automaton has
/// finished, and not when the inbox is empty.
pub proof fn lemma_control_loop_ends_on_shutdown_only(
    handler: HandlerView,
    received: Received<HandlerCommand>,
)
    ensures
        (handler.step(received).verdict matches Verdict::Done(reaction) && reaction.flow
            == Flow::Finish) <==> received == Received::Command(HandlerCommand::Shutdown),
        received == Received::<HandlerCommand>::Empty ==> handler.step(received).next == handler,
{
}

/// The transport thread ends its look into the inbox for good exactly
/// when it finds the word to stop there.
pub proof fn lemma_ipc_listener_ends_on_shutdown_only(received: Received<IpcListenerCommand>)
    ensures
        IpcListener::listening(received) == Ok::<Listening, IpcListenerError>(Listening::Finish)
            <==> received == Received::Command(IpcListenerCommand::Shutdown),
{
}

/// Each thread says that it is ready and waits for the same word of the
/// other. The meeting at the start takes place for both exactly if each
/// finds the other's word; a thread that finds the other's report of a
/// failed setup, or finds the other gone, does not wait any longer.
pub proof fn lemma_setup_meeting_needs_both(
    handler_finds: Option<HandlerCommand>,
    ipc_listener_finds: Option<IpcListenerCommand>,
)
    ensures
        Handler::setup_meeting(handler_finds) == Some(Meeting::Met) <==> handler_finds == Some(
            HandlerCommand::IpcListenerIsReady,
        ),
        IpcListener::setup_meeting(ipc_listener_finds) == Some(Meeting::Met) <==> ipc_listener_finds
            == Some(IpcListenerCommand::HandlerIsReady),
        handler_finds is None || handler_finds == Some(HandlerCommand::IpcListenerSetupError)
            ==> Handler::setup_meeting(handler_finds) == Some(Meeting::Alone),
        ipc_listener_finds is None || ipc_listener_finds == Some(
            IpcListenerCommand::HandlerSetupError,
        ) || ipc_listener_finds == Some(IpcListenerCommand::SenderCreationError)
            ==> IpcListener::setup_meeting(ipc_listener_finds) == Some(Meeting::Alone),
{
}

/// Each thread says that it has finished and waits for the same word of
/// the other. The meeting at the end takes place for both exactly if each
/// finds the other's word; a thread that finds the other gone does not
/// wait any longer.
pub proof fn lemma_finish_meeting_needs_both(
    handler_finds: Option<HandlerCommand>,
    ipc_listener_finds: Option<IpcListenerCommand>,
)
    ensures
        Handler::finish_meeting(handler_finds) == Some(Meeting::Met) <==> handler_finds == Some(
            HandlerCommand::IpcListenerFinished,
        ),
        IpcListener::finish_meeting(ipc_listener_finds) == Some(Meeting::Met) <==> ipc_listener_finds
            == Some(IpcListenerCommand::HandlerFinished),
        handler_finds is None ==> Handler::finish_meeting(handler_finds) == Some(Meeting::Alone),
        ipc_listener_finds is None ==> IpcListener::finish_meeting(ipc_listener_finds) == Some(
            Meeting::Alone,
        ),
{
}

/// Whatever the control thread finds in its inbox, its automaton and its
/// peer registry stay well formed.
pub proof fn lemma_step_keeps_handler_well_formed(
    handler: HandlerView,
    received: Received<HandlerCommand>,
)
    requires
        handler.wf(),
    ensures
        handler.step(received).next.wf(),
{
    match received {
        Received::Command(HandlerCommand::AutomatSignal(signal)) => {
            lemma_step_keeps_well_formed(handler.automat, Input::Signal(signal));
        },
        Received::Command(HandlerCommand::AutomatCommand(command)) => {
            lemma_step_keeps_well_formed(handler.automat, Input::Command(command));
        },
        Received::Command(
            HandlerCommand::SenderCommand(SenderCommand::ConnectedToServers(server_type)),
        ) => {
            lemma_step_keeps_well_formed(
                handler.automat,
                Input::Signal(AutomatSignal::ConnectedToServers(server_type)),
            );
        },
        Received::Command(
            HandlerCommand::AcceptConnection(
                server_type,
                server_id,
                connection_id,
                address,
                balancer_connection_id,
            ),
        ) => {
            lemma_accept_connection_is_idempotent(
                handler.sender.of(server_type),
                server_id,
                connection_id,
                address,
                balancer_connection_id,
            );
        },
        Received::Command(
            HandlerCommand::ConnectionAccepted(server_type, connection_id, set_connection_id),
        ) => {
            lemma_one_word_per_round(
                handler.sender.of(server_type),
                connection_id,
                set_connection_id,
            );
        },
        Received::Command(HandlerCommand::Connected(server_type, connection_id)) => {
            lemma_one_word_per_round(handler.sender.of(server_type), connection_id, connection_id);
        },
        Received::Command(HandlerCommand::Familiarize(lists)) => {
            lemma_familiarize_keeps_well_formed(handler.sender.storages, lists.storages@);
            lemma_familiarize_keeps_well_formed(handler.sender.handlers, lists.handlers@);
        },
        _ => {},
    }
}

/// One entry of the control thread's inbox changes the automaton or the
/// peer registry, never both, and only the entry that announces work
/// changes the way the thread looks into its inbox.
pub proof fn lemma_one_component_per_entry(handler: HandlerView, command: HandlerCommand)
    ensures
        handler.handle(command).next.automat == handler.automat || handler.handle(
            command,
        ).next.sender == handler.sender,
        command != HandlerCommand::Task ==> handler.handle(command).next.wait_tasks
            == handler.wait_tasks,
        !(handler.handle(command).verdict is Done) ==> handler.handle(command).next == handler,
{
}

} // verus!
