//! Sketches as the cache holds them.

use vstd::prelude::*;

verus! {

/// A cached sketch.
#[derive(Clone, Debug, PartialEq)]
pub struct SketchRecord {
    pub id: String,
    pub checksum: String,
    pub title: String,
    pub asset_id: String,
    pub author_id: String,
    pub publication_date: String,
    pub summary: Option<String>,
}

/// Cached sketches, in the order in which they were read.
#[derive(Clone, Debug)]
pub struct SketchRecordSet {
    pub inner: Vec<SketchRecord>,
}

impl SketchRecordSet {
    /// The number of records.
    pub fn len(&self) -> (n: usize)
        ensures
            n == self.inner@.len(),
    {
        self.inner.len()
    }

    /// Tells whether the set holds no record.
    pub fn is_empty(&self) -> (empty: bool)
        ensures
            empty == (self.inner@.len() == 0),
    {
        self.len() == 0
    }
}

impl IntoIterator for SketchRecordSet {
    type Item = SketchRecord;

    type IntoIter = std::vec::IntoIter<SketchRecord>;

    /// The records, in their order.
    fn into_iter(self) -> (iter: std::vec::IntoIter<SketchRecord>)
        ensures
            iter == vstd::std_specs::vec::spec_into_iter(self.inner),
    {
        self.inner.into_iter()
    }
}

} // verus!
