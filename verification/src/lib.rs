//! Decision core of a cluster node: the lifecycle automaton, the peer
//! handshake registry and the rules by which the node's two threads start,
//! stop and report each other's failures.
//!
//! The decisions are functions from state and event to next state and
//! outbound messages: `automat::InnerAutomat`, `sender::Sender`, and
//! `handler::Handler::step` on top of both. What is meant for the node's
//! own threads is put into their inboxes by `channels`, which
//! `automat::Automat` and `handler::Handler::dispatch` use. Sockets,
//! threads and the wait for the next event belong to the program that
//! embeds this crate.

pub mod automat;
pub mod channels;
pub mod handler;
pub mod ipc_listener;
pub mod lifecycle;
pub mod messages;
pub mod sender;
pub mod types;

pub use crate::automat::Automat;
pub use crate::channels::Channels;
pub use crate::handler::{Handler, HandlerCommand};
pub use crate::ipc_listener::{IpcListener, IpcListenerCommand};
pub use crate::sender::Sender;
pub use crate::types::{
    ConnectionID, Meeting, ReceiveMode, Received, ServerID, ServerType, ServerTypeSet, ThreadSet,
    ThreadSource,
};
