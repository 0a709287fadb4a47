//! Naming an entry of the platform store.

use vstd::prelude::*;

verus! {

/// The service name under which every entry of the application is kept.
pub const SERVICE: &'static str = "NovelPro";

/// The pair that identifies one entry of the platform store.
#[derive(Debug, PartialEq, Eq)]
pub struct EntryId {
    pub service: String,
    pub key: String,
}

impl View for EntryId {
    type V = (Seq<char>, Seq<char>);

    open spec fn view(&self) -> (Seq<char>, Seq<char>) {
        (self.service@, self.key@)
    }
}

/// The entry that `key` names: the fixed service paired with the key, which is
/// taken as it is.
pub open spec fn entry_of(key: Seq<char>) -> (Seq<char>, Seq<char>) {
    (SERVICE@, key)
}

impl EntryId {
    /// Names the entry for `key`. Any key is accepted, the empty one too.
    pub fn for_key(key: String) -> (entry: EntryId)
        ensures
            entry@ == entry_of(key@),
    {
        EntryId { service: SERVICE.to_owned(), key }
    }
}

} // verus!
