//! The transport thread's decisions: when it looks into its inbox, what
//! each entry leads to, what each inbound message becomes, how it meets
//! the control thread at start and end, and whom it tells when it fails.

use crate::automat::{AutomatCommand, AutomatSignal};
use crate::handler::commands::HandlerCommand;
use crate::ipc_listener::commands::IpcListenerCommand;
use crate::ipc_listener::error::Error;
use crate::messages::{BalancerToHandler, HandlerToHandler, Message, StorageToHandler};
use crate::sender::FamiliarityLists;
use crate::types::{ConnectionID, Meeting, Received, ServerType, ThreadSource};
use vstd::prelude::*;

verus! {

/// Milliseconds between two looks into the inbox.
pub const RECV_IPC_LISTENER_RECEIVER_INTERVAL: u64 = 1000;

/// What one look into the inbox leads to.
#[derive(Clone, Debug, PartialEq, Eq)]
pub enum Listening {
    /// Put this into the control thread's inbox, and look again.
    Forward(HandlerCommand),
    /// The entry means nothing to this thread; look again.
    Ignored,
    /// The inbox is empty: the look is over.
    Drained,
    /// The node has been told to stop.
    Finish,
}

/// What the transport thread does when its work has ended.
#[derive(Clone, Debug, PartialEq, Eq)]
pub struct Conclusion {
    /// What the control thread is to be told, if anything.
    pub notify: Option<HandlerCommand>,
    /// Whether the thread then waits for the control thread to finish.
    pub synchronize_finish: bool,
}

/// What is said of an entry that has no business in the inbox.
pub open spec fn unexpected_command() -> Seq<char> {
    "Unexpected type of IpcListenerCommand"@
}

/// `result` is the failure that says that what came has no business
/// there.
pub open spec fn rebuffed<T>(result: Result<T, Error>) -> bool {
    result matches Err(Error::Other(message)) && message@ == unexpected_command()
}

/// What the transport thread holds.
pub struct IpcListener {
    /// The time after which the inbox is looked into again.
    recv_ipc_listener_receiver_time: u64,
}

impl View for IpcListener {
    type V = int;

    /// The time after which the inbox is looked into again.
    closed spec fn view(&self) -> int {
        self.recv_ipc_listener_receiver_time as int
    }
}

impl IpcListener {
    /// The transport thread at the time `now`, in milliseconds: the inbox
    /// is looked into as soon as time has moved on.
    pub fn new(now: u64) -> (listener: IpcListener)
        ensures
            listener@ == now,
    {
        IpcListener { recv_ipc_listener_receiver_time: now }
    }

    /// Whether it is time to look into the inbox.
    pub fn is_receive_due(&self, now: u64) -> (due: bool)
        ensures
            due == (now > self@),
    {
        now > self.recv_ipc_listener_receiver_time
    }

    /// The time of the next look after one at `now`.
    pub open spec fn next_receive_time(now: u64) -> int {
        if now + RECV_IPC_LISTENER_RECEIVER_INTERVAL <= u64::MAX {
            now + RECV_IPC_LISTENER_RECEIVER_INTERVAL
        } else {
            u64::MAX as int
        }
    }

    /// The inbox has been emptied at `now`. The next look is due one
    /// interval later, and the control thread gets its tick.
    pub fn received_all(&mut self, now: u64) -> (tick: HandlerCommand)
        ensures
            final(self)@ == Self::next_receive_time(now),
            tick == HandlerCommand::EachSecond,
    {
        self.recv_ipc_listener_receiver_time = if now <= u64::MAX
            - RECV_IPC_LISTENER_RECEIVER_INTERVAL {
            now + RECV_IPC_LISTENER_RECEIVER_INTERVAL
        } else {
            u64::MAX
        };
        HandlerCommand::EachSecond
    }

    /// What one look into the inbox leads to.
    pub open spec fn listening(received: Received<IpcListenerCommand>) -> Result<Listening, Error> {
        match received {
            Received::Command(IpcListenerCommand::HandlerThreadCrash(source)) => Err(
                Error::HandlerThreadCrash(source),
            ),
            Received::Command(IpcListenerCommand::BalancerCrash(source)) => Err(
                Error::BalancerCrash(source),
            ),
            Received::Command(IpcListenerCommand::Shutdown) => Ok(Listening::Finish),
            Received::Command(IpcListenerCommand::GenerateMap) => Ok(
                Listening::Forward(
                    HandlerCommand::AutomatSignal(
                        AutomatSignal::ThreadIsReady(ThreadSource::IpcListener),
                    ),
                ),
            ),
            Received::Command(IpcListenerCommand::CloseMap) => Ok(
                Listening::Forward(
                    HandlerCommand::AutomatSignal(
                        AutomatSignal::ThreadIsReady(ThreadSource::IpcListener),
                    ),
                ),
            ),
            Received::Command(_) => Ok(Listening::Ignored),
            Received::Empty => Ok(Listening::Drained),
            Received::Disconnected => Err(Error::HandlerThreadCrash(ThreadSource::Handler)),
        }
    }

    /// Handles one look into the inbox. The transport thread has no part
    /// in the work on a map: told to generate or close one, it reports
    /// itself ready at once. An inbox that nobody can fill any more is a
    /// failure of the control thread.
    pub fn lifecycle_listen(received: Received<IpcListenerCommand>) -> (result: Result<
        Listening,
        Error,
    >)
        ensures
            result == Self::listening(received),
    {
        match received {
            Received::Command(command) => match command {
                IpcListenerCommand::HandlerThreadCrash(source) => Err(
                    Error::HandlerThreadCrash(source),
                ),
                IpcListenerCommand::BalancerCrash(source) => Err(Error::BalancerCrash(source)),
                IpcListenerCommand::Shutdown => Ok(Listening::Finish),
                IpcListenerCommand::GenerateMap => Ok(
                    Listening::Forward(
                        HandlerCommand::AutomatSignal(
                            AutomatSignal::ThreadIsReady(ThreadSource::IpcListener),
                        ),
                    ),
                ),
                IpcListenerCommand::CloseMap => Ok(
                    Listening::Forward(
                        HandlerCommand::AutomatSignal(
                            AutomatSignal::ThreadIsReady(ThreadSource::IpcListener),
                        ),
                    ),
                ),
                _ => Ok(Listening::Ignored),
            },
            Received::Empty => Ok(Listening::Drained),
            Received::Disconnected => Err(Error::HandlerThreadCrash(ThreadSource::Handler)),
        }
    }

    /// What a message of the balancer becomes in the control thread's
    /// inbox.
    pub open spec fn balancer_message(message: BalancerToHandler) -> Option<HandlerCommand> {
        match message {
            BalancerToHandler::EstablishingConnection => Some(
                HandlerCommand::EstablishingConnection,
            ),
            BalancerToHandler::Familiarity { storages, handlers } => Some(
                HandlerCommand::AutomatSignal(
                    AutomatSignal::Familiarize(Box::new(FamiliarityLists { storages, handlers })),
                ),
            ),
            BalancerToHandler::Shutdown(restart) => Some(
                HandlerCommand::AutomatCommand(AutomatCommand::Shutdown(restart != 0)),
            ),
            BalancerToHandler::GenerateMap(map_name) => Some(
                HandlerCommand::AutomatCommand(AutomatCommand::GenerateMap(map_name)),
            ),
            BalancerToHandler::CloseMap => Some(
                HandlerCommand::AutomatCommand(AutomatCommand::CloseMap),
            ),
            BalancerToHandler::Defrost => None,
        }
    }

    /// What a message of the storage server `connection_id` becomes in
    /// the control thread's inbox.
    pub open spec fn storage_message(
        connection_id: ConnectionID,
        message: StorageToHandler,
    ) -> Option<HandlerCommand> {
        match message {
            StorageToHandler::Connect(server_id, address, balancer_connection_id) => Some(
                HandlerCommand::AcceptConnection(
                    ServerType::Storage,
                    server_id,
                    connection_id,
                    address,
                    balancer_connection_id,
                ),
            ),
            StorageToHandler::ConnectionAccepted(set_connection_id) => Some(
                HandlerCommand::ConnectionAccepted(
                    ServerType::Storage,
                    connection_id,
                    set_connection_id,
                ),
            ),
            StorageToHandler::Connected => Some(
                HandlerCommand::Connected(ServerType::Storage, connection_id),
            ),
            StorageToHandler::ResourceCreated(_) => None,
            StorageToHandler::Resource(_, _) => None,
        }
    }

    /// What a message of the handler `connection_id` becomes in the
    /// control thread's inbox.
    pub open spec fn handler_message(
        connection_id: ConnectionID,
        message: HandlerToHandler,
    ) -> HandlerCommand {
        match message {
            HandlerToHandler::Connect(server_id, address, balancer_connection_id) => {
                HandlerCommand::AcceptConnection(
                    ServerType::Handler,
                    server_id,
                    connection_id,
                    address,
                    balancer_connection_id,
                )
            },
            HandlerToHandler::ConnectionAccepted(set_connection_id) => {
                HandlerCommand::ConnectionAccepted(
                    ServerType::Handler,
                    connection_id,
                    set_connection_id,
                )
            },
            HandlerToHandler::Connected => HandlerCommand::Connected(
                ServerType::Handler,
                connection_id,
            ),
        }
    }

    /// What the message `message` of the sender `connection_id` becomes
    /// in the control thread's inbox.
    pub open spec fn inbound(connection_id: ConnectionID, message: Message) -> Option<
        HandlerCommand,
    > {
        match message {
            Message::BalancerToHandler(message) => Self::balancer_message(message),
            Message::StorageToHandler(message) => Self::storage_message(connection_id, message),
            Message::HandlerToHandler(message) => Some(
                Self::handler_message(connection_id, message),
            ),
        }
    }

    /// Turns an inbound message into the entry of the control thread's
    /// inbox that it stands for, if it stands for one.
    pub fn handle_message(connection_id: ConnectionID, message: Message) -> (command: Option<
        HandlerCommand,
    >)
        ensures
            command == Self::inbound(connection_id, message),
    {
        match message {
            Message::BalancerToHandler(message) => Self::handle_balancer_message(message),
            Message::StorageToHandler(message) => Self::handle_storage_message(
                connection_id,
                message,
            ),
            Message::HandlerToHandler(message) => Some(
                Self::handle_handler_message(connection_id, message),
            ),
        }
    }

    /// Turns a message of the balancer into an entry of the control
    /// thread's inbox.
    pub fn handle_balancer_message(message: BalancerToHandler) -> (command: Option<HandlerCommand>)
        ensures
            command == Self::balancer_message(message),
    {
        match message {
            BalancerToHandler::EstablishingConnection => Some(
                HandlerCommand::EstablishingConnection,
            ),
            BalancerToHandler::Familiarity { storages, handlers } => {
                let familiarity_lists = FamiliarityLists::new(storages, handlers);
                Some(
                    HandlerCommand::AutomatSignal(
                        AutomatSignal::Familiarize(Box::new(familiarity_lists)),
                    ),
                )
            },
            BalancerToHandler::Shutdown(restart) => {
                let restart = if restart == 0 {
                    false
                } else {
                    true
                };
                Some(HandlerCommand::AutomatCommand(AutomatCommand::Shutdown(restart)))
            },
            BalancerToHandler::GenerateMap(map_name) => Some(
                HandlerCommand::AutomatCommand(AutomatCommand::GenerateMap(map_name)),
            ),
            BalancerToHandler::CloseMap => Some(
                HandlerCommand::AutomatCommand(AutomatCommand::CloseMap),
            ),
            BalancerToHandler::Defrost => None,
        }
    }

    /// Turns a message of a storage server into an entry of the control
    /// thread's inbox.
    pub fn handle_storage_message(connection_id: ConnectionID, message: StorageToHandler) -> (command:
        Option<HandlerCommand>)
        ensures
            command == Self::storage_message(connection_id, message),
    {
        match message {
            StorageToHandler::Connect(server_id, address, balancer_connection_id) => Some(
                HandlerCommand::AcceptConnection(
                    ServerType::Storage,
                    server_id,
                    connection_id,
                    address,
                    balancer_connection_id,
                ),
            ),
            StorageToHandler::ConnectionAccepted(set_connection_id) => Some(
                HandlerCommand::ConnectionAccepted(
                    ServerType::Storage,
                    connection_id,
                    set_connection_id,
                ),
            ),
            StorageToHandler::Connected => Some(
                HandlerCommand::Connected(ServerType::Storage, connection_id),
            ),
            StorageToHandler::ResourceCreated(_) => None,
            StorageToHandler::Resource(_, _) => None,
        }
    }

    /// Turns a message of another handler into an entry of the control
    /// thread's inbox.
    pub fn handle_handler_message(connection_id: ConnectionID, message: HandlerToHandler) -> (command:
        HandlerCommand)
        ensures
            command == Self::handler_message(connection_id, message),
    {
        match message {
            HandlerToHandler::Connect(server_id, address, balancer_connection_id) => {
                HandlerCommand::AcceptConnection(
                    ServerType::Handler,
                    server_id,
                    connection_id,
                    address,
                    balancer_connection_id,
                )
            },
            HandlerToHandler::ConnectionAccepted(set_connection_id) => {
                HandlerCommand::ConnectionAccepted(
                    ServerType::Handler,
                    connection_id,
                    set_connection_id,
                )
            },
            HandlerToHandler::Connected => HandlerCommand::Connected(
                ServerType::Handler,
                connection_id,
            ),
        }
    }

    /// What the transport thread says to the control thread when it is
    /// ready to work.
    pub fn setup_call() -> (call: HandlerCommand)
        ensures
            call == HandlerCommand::IpcListenerIsReady,
    {
        HandlerCommand::IpcListenerIsReady
    }

    /// What the transport thread says to the control thread when it has
    /// finished.
    pub fn finish_call() -> (call: HandlerCommand)
        ensures
            call == HandlerCommand::IpcListenerFinished,
    {
        HandlerCommand::IpcListenerFinished
    }

    /// How the meeting at the start ends for the transport thread; `None`
    /// where what came has no business there.
    pub open spec fn setup_meeting(received: Option<IpcListenerCommand>) -> Option<Meeting> {
        match received {
            Some(IpcListenerCommand::HandlerIsReady) => Some(Meeting::Met),
            Some(IpcListenerCommand::HandlerSetupError) => Some(Meeting::Alone),
            Some(IpcListenerCommand::SenderCreationError) => Some(Meeting::Alone),
            None => Some(Meeting::Alone),
            Some(_) => None,
        }
    }

    /// How the meeting at the end ends for the transport thread; `None`
    /// where what came has no business there.
    pub open spec fn finish_meeting(received: Option<IpcListenerCommand>) -> Option<Meeting> {
        match received {
            Some(IpcListenerCommand::HandlerFinished) => Some(Meeting::Met),
            None => Some(Meeting::Alone),
            Some(_) => None,
        }
    }

    /// How the meeting at the start ends; `received` is what the inbox
    /// gave after the call, `None` where nobody can fill the inbox any
    /// more. Where the control thread reports that its setup failed or
    /// that it could not reach the balancer, or where it is gone, the
    /// meeting is off and the transport thread does not wait any longer.
    pub fn synchronize_setup(received: Option<IpcListenerCommand>) -> (result: Result<
        Meeting,
        Error,
    >)
        ensures
            match Self::setup_meeting(received) {
                Some(meeting) => result == Ok::<Meeting, Error>(meeting),
                None => rebuffed(result),
            },
    {
        match received {
            Some(IpcListenerCommand::HandlerIsReady) => Ok(Meeting::Met),
            Some(IpcListenerCommand::HandlerSetupError) => Ok(Meeting::Alone),
            Some(IpcListenerCommand::SenderCreationError) => Ok(Meeting::Alone),
            None => Ok(Meeting::Alone),
            Some(_) => Err(Error::Other("Unexpected type of IpcListenerCommand".to_owned())),
        }
    }

    /// How the meeting at the end ends; where the control thread is
    /// gone, the transport thread does not wait any longer.
    pub fn synchronize_finish(received: Option<IpcListenerCommand>) -> (result: Result<
        Meeting,
        Error,
    >)
        ensures
            match Self::finish_meeting(received) {
                Some(meeting) => result == Ok::<Meeting, Error>(meeting),
                None => rebuffed(result),
            },
    {
        match received {
            Some(IpcListenerCommand::HandlerFinished) => Ok(Meeting::Met),
            None => Ok(Meeting::Alone),
            Some(_) => Err(Error::Other("Unexpected type of IpcListenerCommand".to_owned())),
        }
    }

    /// What the transport thread does when its work has ended as `result`
    /// says.
    pub open spec fn conclusion(result: Result<(), Error>) -> Conclusion {
        match result {
            Ok(()) => Conclusion { notify: None, synchronize_finish: true },
            Err(Error::HandlerThreadCrash(_)) => Conclusion {
                notify: None,
                synchronize_finish: false,
            },
            Err(Error::BalancerCrash(_)) => Conclusion { notify: None, synchronize_finish: false },
            Err(Error::BalancerCrashed(_)) => Conclusion {
                notify: Some(HandlerCommand::BalancerCrash(ThreadSource::IpcListener)),
                synchronize_finish: true,
            },
            Err(_) => Conclusion {
                notify: Some(HandlerCommand::IpcListenerThreadCrash(ThreadSource::IpcListener)),
                synchronize_finish: true,
            },
        }
    }

    /// Decides what follows the end of the transport thread's work. A
    /// failure that began on this side is told to the control thread,
    /// once and with this thread as its origin, and the meeting at the
    /// end is still attempted. A failure that the control thread
    /// reported is not sent back to it.
    pub fn conclude(result: &Result<(), Error>) -> (conclusion: Conclusion)
        ensures
            conclusion == Self::conclusion(*result),
    {
        match result {
            Ok(()) => Conclusion { notify: None, synchronize_finish: true },
            Err(Error::HandlerThreadCrash(_)) => Conclusion {
                notify: None,
                synchronize_finish: false,
            },
            Err(Error::BalancerCrash(_)) => Conclusion { notify: None, synchronize_finish: false },
            Err(Error::BalancerCrashed(_)) => Conclusion {
                notify: Some(HandlerCommand::BalancerCrash(ThreadSource::IpcListener)),
                synchronize_finish: true,
            },
            Err(_) => Conclusion {
                notify: Some(HandlerCommand::IpcListenerThreadCrash(ThreadSource::IpcListener)),
                synchronize_finish: true,
            },
        }
    }
}

} // verus!
