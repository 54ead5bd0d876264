//! Mentions in bulletin entries as the cache holds them.

use vstd::prelude::*;

verus! {

/// A cached mention: an address that a bulletin entry points to.
#[derive(Clone, Debug, PartialEq)]
pub struct BulletinMentionRecord {
    pub mention_url: String,
    pub entry_url: String,
}

/// Cached mentions, in the order in which they were read.
#[derive(Clone, Debug)]
pub struct BulletinMentionRecordSet {
    pub inner: Vec<BulletinMentionRecord>,
}

impl BulletinMentionRecordSet {
    /// The number of records.
    pub fn len(&self) -> (n: usize)
        ensures
            n == self.inner@.len(),
    {
        self.inner.len()
    }

    /// Tells whether the set holds no record.
    pub fn is_empty(&self) -> (empty: bool)
        ensures
            empty == (self.inner@.len() == 0),
    {
        self.len() == 0
    }
}

impl IntoIterator for BulletinMentionRecordSet {
    type Item = BulletinMentionRecord;

    type IntoIter = std::vec::IntoIter<BulletinMentionRecord>;

    /// The records, in their order.
    fn into_iter(self) -> (iter: std::vec::IntoIter<BulletinMentionRecord>)
        ensures
            iter == vstd::std_specs::vec::spec_into_iter(self.inner),
    {
        self.inner.into_iter()
    }
}

} // verus!
