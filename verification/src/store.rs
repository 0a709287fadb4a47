//! The platform store as the adapter relies on it.
//!
//! The store is not this crate's: it is described here so that what the
//! adapter promises of a sequence of operations can be stated. An entry holds
//! at most one value, an operation either takes effect as a whole or leaves
//! the store as it was, and an entry is reported as not found only if it holds
//! nothing.

use vstd::prelude::*;
use crate::failure::{Failure, FailureKind};

verus! {

/// What the store holds: for each entry that has one, its value.
pub type Contents = Map<(Seq<char>, Seq<char>), Seq<char>>;

/// A store that held `before` was asked to set `entry` to `value`, reported
/// `outcome`, and holds `after`.
pub open spec fn set_step(
    before: Contents,
    entry: (Seq<char>, Seq<char>),
    value: Seq<char>,
    outcome: Result<(), Failure>,
    after: Contents,
) -> bool {
    match outcome {
        Ok(_) => after == before.insert(entry, value),
        Err(_) => after == before,
    }
}

/// A store that holds `contents` was asked for the value of `entry` and
/// reported `outcome`.
pub open spec fn get_step(
    contents: Contents,
    entry: (Seq<char>, Seq<char>),
    outcome: Result<String, Failure>,
) -> bool {
    match outcome {
        Ok(value) => contents.contains_key(entry) && value@ == contents[entry],
        Err(failure) => failure.kind == FailureKind::NotFound ==> !contents.contains_key(entry),
    }
}

/// A store that held `before` was asked to delete `entry`, reported `outcome`,
/// and holds `after`.
pub open spec fn delete_step(
    before: Contents,
    entry: (Seq<char>, Seq<char>),
    outcome: Result<(), Failure>,
    after: Contents,
) -> bool {
    match outcome {
        Ok(_) => before.contains_key(entry) && after == before.remove(entry),
        Err(failure) => {
            &&& after == before
            &&& failure.kind == FailureKind::NotFound ==> !before.contains_key(entry)
        },
    }
}

/// The store was reached and looked at the entry: it carried the operation
/// out, or found nothing there.
pub open spec fn answered<T>(outcome: Result<T, Failure>) -> bool {
    outcome matches Err(failure) ==> failure.kind == FailureKind::NotFound
}

} // verus!
