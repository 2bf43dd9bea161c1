//! The transport thread: its inbox and how inbound messages become entries
//! of the control thread's inbox.

pub mod commands;
pub mod error;
pub mod ipc_listener;

pub use self::commands::IpcListenerCommand;
pub use self::error::Error;
pub use self::ipc_listener::{Conclusion, IpcListener, Listening};
