//! Failures of the platform store, and what the caller is told of them.

use vstd::prelude::*;

verus! {

/// The ways in which the platform store can fail an operation.
#[derive(Clone, Copy, Debug, PartialEq, Eq, Structural)]
pub enum FailureKind {
    /// No handle to the entry could be had: the store was out of reach, or
    /// access to it was denied.
    Resolution,
    /// The entry holds nothing: it was never set, or it has been deleted.
    NotFound,
    /// The handle was there and the platform rejected the operation for a
    /// reason of its own, such as a value over its size limit.
    Rejected,
}

/// One failure of the platform store: its kind, and the platform's own
/// description of the cause.
#[derive(Debug, PartialEq, Eq)]
pub struct Failure {
    pub kind: FailureKind,
    pub message: String,
}

impl Failure {
    /// The failure to obtain a handle to an entry, described by `message`.
    /// Nothing was asked of the entry itself.
    pub fn resolving(message: String) -> (failure: Failure)
        ensures
            failure.kind == FailureKind::Resolution,
            failure.message == message,
    {
        Failure { kind: FailureKind::Resolution, message }
    }

    /// The failure of an operation on an entry to which a handle was there,
    /// described by `message`. `no_entry` tells whether the platform failed
    /// the operation because the entry holds nothing.
    pub fn operating(no_entry: bool, message: String) -> (failure: Failure)
        ensures
            failure.kind == if no_entry {
                FailureKind::NotFound
            } else {
                FailureKind::Rejected
            },
            failure.message == message,
    {
        let kind = if no_entry {
            FailureKind::NotFound
        } else {
            FailureKind::Rejected
        };
        Failure { kind, message }
    }
}

/// What the caller is told for `outcome`: the payload of a success as it is,
/// and of a failure the platform's description alone.
pub open spec fn response_of<T>(outcome: Result<T, Failure>) -> Result<T, String> {
    match outcome {
        Ok(payload) => Ok(payload),
        Err(failure) => Err(failure.message),
    }
}

/// Turns what the platform reported into what the caller is told.
///
/// Every failure comes out as an error that carries the platform's description
/// unchanged, so the caller sees one kind of error only: the kind of the
/// failure is not passed on. Nothing is retried and no value is made up.
pub fn respond<T>(outcome: Result<T, Failure>) -> (response: Result<T, String>)
    ensures
        response == response_of(outcome),
{
    match outcome {
        Ok(payload) => Ok(payload),
        Err(failure) => Err(failure.message),
    }
}

} // verus!
