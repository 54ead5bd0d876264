//! Projects as the cache holds them.

use vstd::prelude::*;

verus! {

/// A cached project.
#[derive(Clone, Debug, PartialEq)]
pub struct ProjectRecord {
    pub id: String,
    pub checksum: String,
    pub name: String,
    pub summary: String,
    pub body: String,
    pub status: String,
    pub start_date: String,
    pub end_date: Option<String>,
    pub source_url: Option<String>,
}

/// Cached projects, in the order in which they were read.
#[derive(Clone, Debug)]
pub struct ProjectRecordSet {
    pub inner: Vec<ProjectRecord>,
}

impl ProjectRecordSet {
    /// The number of records.
    pub fn len(&self) -> (n: usize)
        ensures
            n == self.inner@.len(),
    {
        self.inner.len()
    }

    /// Tells whether the set holds no record.
    pub fn is_empty(&self) -> (empty: bool)
        ensures
            empty == (self.inner@.len() == 0),
    {
        self.len() == 0
    }
}

impl IntoIterator for ProjectRecordSet {
    type Item = ProjectRecord;

    type IntoIter = std::vec::IntoIter<ProjectRecord>;

    /// The records, in their order.
    fn into_iter(self) -> (iter: std::vec::IntoIter<ProjectRecord>)
        ensures
            iter == vstd::std_specs::vec::spec_into_iter(self.inner),
    {
        self.inner.into_iter()
    }
}

} // verus!
