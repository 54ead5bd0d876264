//! Tools as the cache holds them.

use vstd::prelude::*;

verus! {

/// A cached tool.
#[derive(Clone, Debug, PartialEq)]
pub struct ToolRecord {
    pub id: String,
    pub checksum: String,
    pub name: String,
    pub summary: Option<String>,
    pub url: Option<String>,
}

/// Cached tools, in the order in which they were read.
#[derive(Clone, Debug)]
pub struct ToolRecordSet {
    pub inner: Vec<ToolRecord>,
}

impl ToolRecordSet {
    /// The number of records.
    pub fn len(&self) -> (n: usize)
        ensures
            n == self.inner@.len(),
    {
        self.inner.len()
    }

    /// Tells whether the set holds no record.
    pub fn is_empty(&self) -> (empty: bool)
        ensures
            empty == (self.inner@.len() == 0),
    {
        self.len() == 0
    }
}

impl IntoIterator for ToolRecordSet {
    type Item = ToolRecord;

    type IntoIter = std::vec::IntoIter<ToolRecord>;

    /// The records, in their order.
    fn into_iter(self) -> (iter: std::vec::IntoIter<ToolRecord>)
        ensures
            iter == vstd::std_specs::vec::spec_into_iter(self.inner),
    {
        self.inner.into_iter()
    }
}

} // verus!
