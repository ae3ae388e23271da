//! Error taxonomy of the worker.
//!
//! Every error is terminal to the single invocation that produced it: the
//! host logs it and moves on to the next tick. Validation errors are
//! returned to the ledger's admission layer as a rejection decision.

use vstd::prelude::*;

verus! {

/// Task selection failed.
#[derive(Clone, Copy, PartialEq, Eq, Structural, Debug)]
pub enum DispatchError {
    /// The invocation ordinal could not be represented in the
    /// dispatcher's numeric domain.
    UnknownTask,
}

/// A remote fetch failed.
#[derive(Clone, Copy, PartialEq, Eq, Structural, Debug)]
pub enum NetworkError {
    /// The deadline elapsed before a response was received.
    Timeout,
    /// A lower-level network failure.
    Transport,
    /// The HTTP status was not 200.
    UnexpectedStatus,
}

/// A fetched document or price string could not be read.
#[derive(Clone, Copy, PartialEq, Eq, Structural, Debug)]
pub enum ParseError {
    Malformed,
}

/// A submission strategy failed.
#[derive(Clone, Copy, PartialEq, Eq, Structural, Debug)]
pub enum SigningError {
    /// No local signing identity is configured.
    NoLocalIdentity,
    /// The ledger's pool rejected the candidate transaction.
    SubmissionRejected,
}

/// The admission validator rejected a candidate transaction.
#[derive(Clone, Copy, PartialEq, Eq, Structural, Debug)]
pub enum ValidationError {
    /// The embedded payload signature did not verify.
    BadSignature,
    /// The call shape is not one the validator admits.
    UnsupportedCall,
}

/// Claiming the durable lock failed.
#[derive(Clone, Copy, PartialEq, Eq, Structural, Debug)]
pub enum LockError {
    /// Another invocation may still hold the key: neither of its
    /// expiries has passed.
    AlreadyHeld,
}

/// Umbrella over the stage errors, for reporting a whole invocation's
/// outcome to the host.
#[derive(Clone, Copy, PartialEq, Eq, Structural, Debug)]
pub enum WorkerError {
    Dispatch(DispatchError),
    Network(NetworkError),
    Parse(ParseError),
    Signing(SigningError),
    Lock(LockError),
}

} // verus!
