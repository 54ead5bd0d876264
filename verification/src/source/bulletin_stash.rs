//! The stash: bulletin entries that wait for an issue.

use crate::cache::records::{BulletinEntryRecord, BulletinEntryRecordSet};
use crate::source::bulletin_entry::{BulletinEntry, entry_of};
use crate::text::{chars_of, string_of};
use crate::Resource;
use vstd::prelude::*;

verus! {

/// The bulletin entries that belong to no issue yet.
#[derive(Clone, Debug, PartialEq)]
pub struct BulletinStash {
    pub _type: String,
    pub entries: Vec<BulletinEntry>,
}

impl Resource for BulletinStash {
    type Id = String;

    fn id(&self) -> (id: &String)
        ensures
            *id == self._type,
    {
        &self._type
    }
}

/// The entries that `records` store, in their order.
pub open spec fn entries_of(records: Seq<BulletinEntryRecord>) -> Seq<BulletinEntry> {
    Seq::new(records.len(), |i: int| entry_of(records[i]))
}

/// The entries that `records` store, in their order.
pub fn entries_from(records: BulletinEntryRecordSet) -> (entries: Vec<BulletinEntry>)
    ensures
        entries@ == entries_of(records.inner@),
{
    let ghost all = records.inner@;
    let mut entries: Vec<BulletinEntry> = Vec::new();
    for record in iter: records.inner
        invariant
            iter.seq() == all,
            entries@.len() == iter.index(),
            forall|i: int| 0 <= i < entries@.len() ==> entries@[i] == entry_of(all[i]),
    {
        entries.push(BulletinEntry::from(record));
    }
    assert(entries@ =~= entries_of(all));
    entries
}

impl BulletinStash {
    /// The stash that holds the entries of `records`, in their order.
    pub fn from_records(records: BulletinEntryRecordSet) -> (stash: BulletinStash)
        ensures
            stash._type@ == "bulletin_stash"@,
            stash.entries@ == entries_of(records.inner@),
    {
        BulletinStash { _type: string_of(&chars_of("bulletin_stash")), entries: entries_from(records) }
    }
}

} // verus!
