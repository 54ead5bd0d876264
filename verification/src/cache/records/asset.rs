//! Assets as the cache holds them.

use vstd::prelude::*;

verus! {

/// A cached asset: its content with the checksum it was stored under.
#[derive(Clone, Debug, PartialEq)]
pub struct AssetRecord {
    pub id: String,
    pub checksum: String,
    pub content_type: String,
    pub content: Vec<u8>,
}

/// Cached assets, in the order in which they were read.
#[derive(Clone, Debug)]
pub struct AssetRecordSet {
    pub inner: Vec<AssetRecord>,
}

impl AssetRecordSet {
    /// The number of records.
    pub fn len(&self) -> (n: usize)
        ensures
            n == self.inner@.len(),
    {
        self.inner.len()
    }

    /// Tells whether the set holds no record.
    pub fn is_empty(&self) -> (empty: bool)
        ensures
            empty == (self.inner@.len() == 0),
    {
        self.len() == 0
    }
}

impl IntoIterator for AssetRecordSet {
    type Item = AssetRecord;

    type IntoIter = std::vec::IntoIter<AssetRecord>;

    /// The records, in their order.
    fn into_iter(self) -> (iter: std::vec::IntoIter<AssetRecord>)
        ensures
            iter == vstd::std_specs::vec::spec_into_iter(self.inner),
    {
        self.inner.into_iter()
    }
}

} // verus!
