//! Sections as the cache holds them.

use vstd::prelude::*;

verus! {

/// A cached section.
#[derive(Clone, Debug, PartialEq)]
pub struct SectionRecord {
    pub id: String,
    pub checksum: String,
    pub title: String,
    pub resource_type: Option<String>,
    pub body: Option<String>,
}

/// Cached sections, in the order in which they were read.
#[derive(Clone, Debug)]
pub struct SectionRecordSet {
    pub inner: Vec<SectionRecord>,
}

impl SectionRecordSet {
    /// The number of records.
    pub fn len(&self) -> (n: usize)
        ensures
            n == self.inner@.len(),
    {
        self.inner.len()
    }

    /// Tells whether the set holds no record.
    pub fn is_empty(&self) -> (empty: bool)
        ensures
            empty == (self.inner@.len() == 0),
    {
        self.len() == 0
    }
}

impl IntoIterator for SectionRecordSet {
    type Item = SectionRecord;

    type IntoIter = std::vec::IntoIter<SectionRecord>;

    /// The records, in their order.
    fn into_iter(self) -> (iter: std::vec::IntoIter<SectionRecord>)
        ensures
            iter == vstd::std_specs::vec::spec_into_iter(self.inner),
    {
        self.inner.into_iter()
    }
}

} // verus!
