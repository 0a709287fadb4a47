//! What the adapter promises of operations that follow one another.
//!
//! Each law takes the store as [`crate::store`] describes it and the adapter's
//! two decisions as they are: the entry comes from
//! [`entry_of`](crate::entry::entry_of), the caller's answer from
//! [`response_of`](crate::failure::response_of).

use vstd::prelude::*;
use crate::entry::entry_of;
use crate::failure::{response_of, Failure};
use crate::store::{answered, delete_step, get_step, set_step, Contents};

verus! {

/// A value that was saved under a key is the value that a get of that key
/// returns, whatever the store held before, if the save succeeded and the
/// store answered the get.
pub proof fn save_then_get(
    before: Contents,
    key: Seq<char>,
    value: Seq<char>,
    saved: Result<(), Failure>,
    between: Contents,
    got: Result<String, Failure>,
)
    requires
        set_step(before, entry_of(key), value, saved, between),
        response_of(saved) is Ok,
        get_step(between, entry_of(key), got),
        answered(got),
    ensures
        response_of(got) matches Ok(text) && text@ == value,
{
}

/// Of two values saved under one key, one after the other, a get returns the
/// second: saving over a value replaces it and is no error.
pub proof fn second_save_wins(
    before: Contents,
    key: Seq<char>,
    first: Seq<char>,
    second: Seq<char>,
    saved_first: Result<(), Failure>,
    between: Contents,
    saved_second: Result<(), Failure>,
    after: Contents,
    got: Result<String, Failure>,
)
    requires
        set_step(before, entry_of(key), first, saved_first, between),
        response_of(saved_first) is Ok,
        set_step(between, entry_of(key), second, saved_second, after),
        response_of(saved_second) is Ok,
        get_step(after, entry_of(key), got),
        answered(got),
    ensures
        response_of(got) matches Ok(text) && text@ == second,
{
}

/// A get of a key under which the store holds nothing is an error, and the
/// error is the platform's description: no empty or default value stands in
/// for the missing one.
pub proof fn get_of_missing_fails(
    contents: Contents,
    key: Seq<char>,
    got: Result<String, Failure>,
)
    requires
        !contents.contains_key(entry_of(key)),
        get_step(contents, entry_of(key), got),
    ensures
        got matches Err(failure) && response_of(got) == Err::<String, String>(failure.message),
{
}

/// A delete after a successful save succeeds, if the store answered it, and
/// takes the entry away: a get that follows is an error.
pub proof fn delete_removes(
    before: Contents,
    key: Seq<char>,
    value: Seq<char>,
    saved: Result<(), Failure>,
    between: Contents,
    deleted: Result<(), Failure>,
    after: Contents,
    got: Result<String, Failure>,
)
    requires
        set_step(before, entry_of(key), value, saved, between),
        response_of(saved) is Ok,
        delete_step(between, entry_of(key), deleted, after),
        answered(deleted),
        get_step(after, entry_of(key), got),
    ensures
        response_of(deleted) is Ok,
        !after.contains_key(entry_of(key)),
        response_of(got) is Err,
{
}

/// A delete of a key under which the store holds nothing is an error, and
/// leaves the store as it was: deleting twice does not succeed twice.
pub proof fn delete_of_missing_fails(
    before: Contents,
    key: Seq<char>,
    deleted: Result<(), Failure>,
    after: Contents,
)
    requires
        !before.contains_key(entry_of(key)),
        delete_step(before, entry_of(key), deleted, after),
    ensures
        deleted matches Err(failure) && response_of(deleted) == Err::<(), String>(failure.message),
        after == before,
{
}

/// Keys are kept apart: a save under one key leaves what a get of any other
/// key returns as it was.
pub proof fn save_leaves_other_keys(
    before: Contents,
    key: Seq<char>,
    value: Seq<char>,
    other_key: Seq<char>,
    saved: Result<(), Failure>,
    after: Contents,
    got: Result<String, Failure>,
)
    requires
        other_key != key,
        set_step(before, entry_of(key), value, saved, after),
        get_step(after, entry_of(other_key), got),
    ensures
        get_step(before, entry_of(other_key), got),
{
}

/// When two callers save under one key at about the same time, the store
/// takes the two writes one after the other, in an order that neither caller
/// chooses. Whichever came last, a get that follows returns one of the two
/// values whole, and never a mixture of them.
pub proof fn racing_saves_leave_one_value(
    before: Contents,
    key: Seq<char>,
    one: Seq<char>,
    other: Seq<char>,
    one_came_first: bool,
    saved_first: Result<(), Failure>,
    between: Contents,
    saved_second: Result<(), Failure>,
    after: Contents,
    got: Result<String, Failure>,
)
    requires
        set_step(before, entry_of(key), if one_came_first { one } else { other }, saved_first, between),
        response_of(saved_first) is Ok,
        set_step(between, entry_of(key), if one_came_first { other } else { one }, saved_second, after),
        response_of(saved_second) is Ok,
        get_step(after, entry_of(key), got),
        answered(got),
    ensures
        response_of(got) matches Ok(text) && (text@ == one || text@ == other),
{
}

} // verus!
