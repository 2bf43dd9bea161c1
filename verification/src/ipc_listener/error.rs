//! Why the transport thread stops.

use crate::automat::TransactionError;
use crate::types::ThreadSource;
use vstd::prelude::*;

verus! {

/// Why the transport thread stops before it was told to.
#[derive(Clone, Debug, PartialEq, Eq)]
pub enum Error {
    /// The control thread has failed; the tag says where the failure
    /// began.
    HandlerThreadCrash(ThreadSource),
    /// The other thread reports that the balancer is gone.
    BalancerCrash(ThreadSource),
    /// This thread found the balancer gone; the text is the cause.
    BalancerCrashed(String),
    BrockenChannel,
    Poisoned,
    /// The socket failed; the text is the cause.
    NanomsgError(String),
    /// Reading from the socket failed; the text is the cause.
    IOError(String),
    Other(String),
}

impl Error {
    /// The failure of an operation on the automaton, or of the delivery
    /// of a message, as a failure of the transport thread.
    pub open spec fn of_transaction(error: TransactionError) -> Error {
        match error {
            TransactionError::Poisoned => Error::Poisoned,
            TransactionError::BrockenChannel => Error::BrockenChannel,
            TransactionError::BalancerCrash(cause, _) => Error::BalancerCrashed(cause),
        }
    }

    /// The failure of an operation on the automaton, or of the delivery
    /// of a message, as a failure of the transport thread.
    pub fn from_transaction(error: TransactionError) -> (failure: Error)
        ensures
            failure == Error::of_transaction(error),
    {
        match error {
            TransactionError::Poisoned => Error::Poisoned,
            TransactionError::BrockenChannel => Error::BrockenChannel,
            TransactionError::BalancerCrash(cause, _) => Error::BalancerCrashed(cause),
        }
    }

    /// The failure began on the other side of the border between the two
    /// threads: the other thread knows of it already.
    pub open spec fn spec_came_from_outside(self) -> bool {
        self is HandlerThreadCrash || self is BalancerCrash
    }

    /// Whether the failure began on the other side of the border between
    /// the two threads.
    pub fn came_from_outside(&self) -> (outside: bool)
        ensures
            outside == self.spec_came_from_outside(),
    {
        match self {
            Error::HandlerThreadCrash(_) => true,
            Error::BalancerCrash(_) => true,
            _ => false,
        }
    }
}

} // verus!
