//! Notes as the cache holds them.

use vstd::prelude::*;

verus! {

/// A cached note.
#[derive(Clone, Debug, PartialEq)]
pub struct NoteRecord {
    pub id: String,
    pub checksum: String,
    pub title: String,
    pub summary: String,
    pub publication_date: String,
    pub author_id: String,
    pub body: String,
}

/// Cached notes, in the order in which they were read.
#[derive(Clone, Debug)]
pub struct NoteRecordSet {
    pub inner: Vec<NoteRecord>,
}

impl NoteRecordSet {
    /// The number of records.
    pub fn len(&self) -> (n: usize)
        ensures
            n == self.inner@.len(),
    {
        self.inner.len()
    }

    /// Tells whether the set holds no record.
    pub fn is_empty(&self) -> (empty: bool)
        ensures
            empty == (self.inner@.len() == 0),
    {
        self.len() == 0
    }
}

impl IntoIterator for NoteRecordSet {
    type Item = NoteRecord;

    type IntoIter = std::vec::IntoIter<NoteRecord>;

    /// The records, in their order.
    fn into_iter(self) -> (iter: std::vec::IntoIter<NoteRecord>)
        ensures
            iter == vstd::std_specs::vec::spec_into_iter(self.inner),
    {
        self.inner.into_iter()
    }
}

} // verus!
