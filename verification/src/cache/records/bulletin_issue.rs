//! Bulletin issues as the cache holds them.

use vstd::prelude::*;

verus! {

/// A cached bulletin issue.
#[derive(Clone, Debug, PartialEq)]
pub struct BulletinRecord {
    pub id: String,
    pub checksum: String,
    pub summary: String,
    pub publication_date: String,
}

/// Cached bulletin issues, in the order in which they were read.
#[derive(Clone, Debug)]
pub struct BulletinRecordSet {
    pub inner: Vec<BulletinRecord>,
}

impl BulletinRecordSet {
    /// The number of records.
    pub fn len(&self) -> (n: usize)
        ensures
            n == self.inner@.len(),
    {
        self.inner.len()
    }

    /// Tells whether the set holds no record.
    pub fn is_empty(&self) -> (empty: bool)
        ensures
            empty == (self.inner@.len() == 0),
    {
        self.len() == 0
    }
}

impl IntoIterator for BulletinRecordSet {
    type Item = BulletinRecord;

    type IntoIter = std::vec::IntoIter<BulletinRecord>;

    /// The records, in their order.
    fn into_iter(self) -> (iter: std::vec::IntoIter<BulletinRecord>)
        ensures
            iter == vstd::std_specs::vec::spec_into_iter(self.inner),
    {
        self.inner.into_iter()
    }
}

} // verus!
