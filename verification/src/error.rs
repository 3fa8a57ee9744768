//! The failure kinds that the client distinguishes.

use vstd::prelude::*;

verus! {

/// A precondition of the client that a request or the chain's answers broke.
#[derive(Clone, Copy, Debug, PartialEq, Eq)]
pub enum Violation {
    /// The requested timestamp lies after the latest known block.
    FutureTimestamp,
    /// The height search predicted a height below zero.
    NegativeHeight,
    /// The height search predicted a height that no 32-bit height can hold.
    HeightOutOfRange,
    /// The height search used up its probes without settling on a height.
    DidNotConverge,
}

/// Why a call to the chain failed.
#[derive(Clone, Debug, PartialEq, Eq)]
pub enum ChainError {
    /// The connection dropped; the only kind that is retried.
    TransientDisconnect,
    /// The node refused the operation, with its reason.
    Rejected(String),
    /// The entity asked for does not exist.
    NotFound,
    /// A payload could not be decoded; holds the payload.
    Malformed(String),
    /// The request cannot be served at all.
    PreconditionViolated(Violation),
}

impl ChainError {
    /// Whether this error is the one kind that a retry may cure.
    pub open spec fn transient(self) -> bool {
        self is TransientDisconnect
    }

    /// Tells whether this error is a dropped connection.
    pub fn is_transient(&self) -> (b: bool)
        ensures
            b == self.transient(),
    {
        match self {
            ChainError::TransientDisconnect => true,
            _ => false,
        }
    }
}

} // verus!
