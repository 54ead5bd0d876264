//! Updates as the cache holds them.

use vstd::prelude::*;

verus! {

/// A cached update: one line of the news.
#[derive(Clone, Debug, PartialEq)]
pub struct UpdateRecord {
    pub id: String,
    pub title: String,
    pub summary: Option<String>,
    pub section: String,
    pub date: String,
}

/// Cached updates, in the order in which they were read.
#[derive(Clone, Debug)]
pub struct UpdateRecordSet {
    pub inner: Vec<UpdateRecord>,
}

impl UpdateRecordSet {
    /// The number of records.
    pub fn len(&self) -> (n: usize)
        ensures
            n == self.inner@.len(),
    {
        self.inner.len()
    }
}

impl IntoIterator for UpdateRecordSet {
    type Item = UpdateRecord;

    type IntoIter = std::vec::IntoIter<UpdateRecord>;

    /// The records, in their order.
    fn into_iter(self) -> (iter: std::vec::IntoIter<UpdateRecord>)
        ensures
            iter == vstd::std_specs::vec::spec_into_iter(self.inner),
    {
        self.inner.into_iter()
    }
}

} // verus!
