//! The entries of a bulletin.

use crate::cache::records::BulletinEntryRecord;
use crate::text::{chars_of, string_of, trim, trim_of};
use vstd::prelude::*;
use vstd::std_specs::convert::FromSpecImpl;

verus! {

/// An entry of a bulletin: an address with a title and a summary.
#[derive(Clone, Debug, PartialEq)]
pub struct BulletinEntry {
    pub url: String,
    pub title: String,
    pub summary: String,
    pub content_type: String,
}

impl BulletinEntry {
    /// The entry for `url`, with `title` and `summary` trimmed.
    pub fn new(
        url: String,
        title: &str,
        summary: &str,
        content_type: String,
    ) -> (entry: BulletinEntry)
        ensures
            entry.url == url,
            entry.title@ == trim(title@),
            entry.summary@ == trim(summary@),
            entry.content_type == content_type,
    {
        BulletinEntry {
            url,
            title: string_of(&trim_of(&chars_of(title))),
            summary: string_of(&trim_of(&chars_of(summary))),
            content_type,
        }
    }

    /// The record that stores the entry under `checksum` as one of the
    /// issue `issue_id`, or as one of the stash where that is `None`.
    pub fn to_record(
        &self,
        issue_id: Option<String>,
        checksum: String,
    ) -> (record: BulletinEntryRecord)
        ensures
            record.url == self.url,
            record.checksum == checksum,
            record.title == self.title,
            record.summary == self.summary,
            record.content_type == self.content_type,
            record.issue_id == issue_id,
    {
        BulletinEntryRecord {
            checksum,
            url: self.url.clone(),
            issue_id,
            title: self.title.clone(),
            summary: self.summary.clone(),
            content_type: self.content_type.clone(),
        }
    }
}

/// The entry that `record` stores.
pub open spec fn entry_of(record: BulletinEntryRecord) -> BulletinEntry {
    BulletinEntry {
        url: record.url,
        title: record.title,
        summary: record.summary,
        content_type: record.content_type,
    }
}

impl From<BulletinEntryRecord> for BulletinEntry {
    fn from(record: BulletinEntryRecord) -> (entry: BulletinEntry) {
        BulletinEntry {
            url: record.url,
            title: record.title,
            summary: record.summary,
            content_type: record.content_type,
        }
    }
}

impl FromSpecImpl<BulletinEntryRecord> for BulletinEntry {
    open spec fn obeys_from_spec() -> bool {
        true
    }

    open spec fn from_spec(record: BulletinEntryRecord) -> BulletinEntry {
        entry_of(record)
    }
}

} // verus!
