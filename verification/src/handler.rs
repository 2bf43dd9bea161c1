//! The control thread: its inbox and what it does with each entry.

pub mod commands;
pub mod error;
pub mod handler;
pub mod model;

pub use self::commands::{HandlerCommand, SenderCommand};
pub use self::error::Error;
pub use self::handler::{Conclusion, Flow, Handler, Reaction};
