//! What the transport thread finds in its inbox.

use crate::types::ThreadSource;
use vstd::prelude::*;

verus! {

/// One entry of the transport thread's inbox.
#[derive(Clone, Debug, PartialEq, Eq)]
pub enum IpcListenerCommand {
    /// The control thread has failed; the tag says where the failure began.
    HandlerThreadCrash(ThreadSource),
    /// The connection to the balancer has failed; the tag says who saw it.
    BalancerCrash(ThreadSource),
    SenderCreationError,
    HandlerSetupError,
    HandlerIsReady,
    GenerateMap,
    CloseMap,
    Shutdown,
    HandlerFinished,
}

} // verus!
