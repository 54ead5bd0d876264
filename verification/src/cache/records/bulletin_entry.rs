//! Bulletin entries as the cache holds them.

use crate::text::{push_str, string_of};
use vstd::prelude::*;

verus! {

/// A cached bulletin entry; one without an issue waits in the stash.
#[derive(Clone, Debug, PartialEq)]
pub struct BulletinEntryRecord {
    pub url: String,
    pub checksum: String,
    pub title: String,
    pub summary: String,
    pub content_type: String,
    pub issue_id: Option<String>,
}

/// Cached bulletin entries, in the order in which they were read.
#[derive(Clone, Debug)]
pub struct BulletinEntryRecordSet {
    pub inner: Vec<BulletinEntryRecord>,
}

/// The condition that picks the entries of an issue, or those of the
/// stash where `issue_id` is `None`.
pub open spec fn issue_clause(issue_id: Option<String>) -> Seq<char> {
    match issue_id {
        Some(id) => "issue_id = '"@ + id@ + "'"@,
        None => "issue_id is NULL"@,
    }
}

impl BulletinEntryRecordSet {
    /// The query that selects the entries of an issue, or those of the
    /// stash where `issue_id` is `None`.
    pub fn select_query(issue_id: &Option<String>) -> (query: String)
        ensures
            query@ == "SELECT * FROM bulletin_entry WHERE "@ + issue_clause(*issue_id) + ";"@,
    {
        let mut out: Vec<char> = Vec::new();
        push_str(&mut out, "SELECT * FROM bulletin_entry WHERE ");
        match issue_id {
            Some(id) => {
                push_str(&mut out, "issue_id = '");
                push_str(&mut out, id.as_str());
                push_str(&mut out, "'");
            },
            None => {
                push_str(&mut out, "issue_id is NULL");
            },
        }
        push_str(&mut out, ";");
        assert(out@ =~= "SELECT * FROM bulletin_entry WHERE "@ + issue_clause(*issue_id) + ";"@);
        string_of(&out)
    }

    /// The number of records.
    pub fn len(&self) -> (n: usize)
        ensures
            n == self.inner@.len(),
    {
        self.inner.len()
    }

    /// Tells whether the set holds no record.
    pub fn is_empty(&self) -> (empty: bool)
        ensures
            empty == (self.inner@.len() == 0),
    {
        self.len() == 0
    }
}

impl IntoIterator for BulletinEntryRecordSet {
    type Item = BulletinEntryRecord;

    type IntoIter = std::vec::IntoIter<BulletinEntryRecord>;

    /// The records, in their order.
    fn into_iter(self) -> (iter: std::vec::IntoIter<BulletinEntryRecord>)
        ensures
            iter == vstd::std_specs::vec::spec_into_iter(self.inner),
    {
        self.inner.into_iter()
    }
}

} // verus!
