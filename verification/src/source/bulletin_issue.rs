//! The issues of the bulletin.

use crate::cache::records::{BulletinEntryRecordSet, BulletinRecord};
use crate::source::bulletin_entry::BulletinEntry;
use crate::source::bulletin_stash::{entries_from, entries_of};
use crate::text::{chars_of, string_of, trim, trim_of};
use crate::{Resource, ResourceSet};
use vstd::prelude::*;

verus! {

/// An issue of the bulletin, with its entries.
#[derive(Clone, Debug, PartialEq)]
pub struct Bulletin {
    pub _type: String,
    pub id: String,
    pub publication_date: String,
    pub summary: String,
    pub entries: Vec<BulletinEntry>,
}

impl Resource for Bulletin {
    type Id = String;

    fn id(&self) -> (id: &String)
        ensures
            *id == self.id,
    {
        &self.id
    }
}

impl Bulletin {
    /// The issue `id`, with `summary` trimmed.
    pub fn new(
        id: String,
        publication_date: String,
        summary: &str,
        entries: Vec<BulletinEntry>,
    ) -> (issue: Bulletin)
        ensures
            issue._type@ == "bulletin"@,
            issue.id == id,
            issue.publication_date == publication_date,
            issue.summary@ == trim(summary@),
            issue.entries == entries,
    {
        Bulletin {
            _type: string_of(&chars_of("bulletin")),
            id,
            publication_date,
            summary: string_of(&trim_of(&chars_of(summary))),
            entries,
        }
    }

    /// The record that stores the issue under `checksum`; the entries
    /// have records of their own.
    pub fn into_record(self, checksum: String) -> (record: BulletinRecord)
        ensures
            record.id == self.id,
            record.checksum == checksum,
            record.summary == self.summary,
            record.publication_date == self.publication_date,
    {
        BulletinRecord {
            checksum,
            id: self.id,
            summary: self.summary,
            publication_date: self.publication_date,
        }
    }
}

/// The issue that `record` stores, with the entries that `entries`
/// store, in their order.
pub fn from_record(record: BulletinRecord, entries: BulletinEntryRecordSet) -> (issue: Bulletin)
    ensures
        issue._type@ == "bulletin"@,
        issue.id == record.id,
        issue.publication_date == record.publication_date,
        issue.summary == record.summary,
        issue.entries@ == entries_of(entries.inner@),
{
    Bulletin {
        _type: string_of(&chars_of("bulletin")),
        id: record.id,
        publication_date: record.publication_date,
        summary: record.summary,
        entries: entries_from(entries),
    }
}

/// Issues of the bulletin, in their order.
#[derive(Clone, Debug)]
pub struct BulletinSet {
    pub inner: Vec<Bulletin>,
}

impl BulletinSet {
    /// The set of `inner`, in its order.
    pub fn new(inner: Vec<Bulletin>) -> (set: BulletinSet)
        ensures
            set.inner == inner,
    {
        BulletinSet { inner }
    }
}

impl ResourceSet for BulletinSet {

}

impl IntoIterator for BulletinSet {
    type Item = Bulletin;

    type IntoIter = std::vec::IntoIter<Bulletin>;

    /// The issues, in their order.
    fn into_iter(self) -> (iter: std::vec::IntoIter<Bulletin>)
        ensures
            iter == vstd::std_specs::vec::spec_into_iter(self.inner),
    {
        self.inner.into_iter()
    }
}

} // verus!
