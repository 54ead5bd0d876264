//! Settings as the cache holds them.

use vstd::prelude::*;

verus! {

/// Cached settings: the source text as bytes.
#[derive(Clone, Debug, PartialEq)]
pub struct SettingsRecord {
    pub id: String,
    pub checksum: String,
    pub blob: Vec<u8>,
}

/// Cached settings, in the order in which they were read.
#[derive(Clone, Debug)]
pub struct SettingsRecordSet {
    pub inner: Vec<SettingsRecord>,
}

impl SettingsRecordSet {
    /// The number of records.
    pub fn len(&self) -> (n: usize)
        ensures
            n == self.inner@.len(),
    {
        self.inner.len()
    }

    /// Tells whether the set holds no record.
    pub fn is_empty(&self) -> (empty: bool)
        ensures
            empty == (self.inner@.len() == 0),
    {
        self.len() == 0
    }
}

impl IntoIterator for SettingsRecordSet {
    type Item = SettingsRecord;

    type IntoIter = std::vec::IntoIter<SettingsRecord>;

    /// The records, in their order.
    fn into_iter(self) -> (iter: std::vec::IntoIter<SettingsRecord>)
        ensures
            iter == vstd::std_specs::vec::spec_into_iter(self.inner),
    {
        self.inner.into_iter()
    }
}

} // verus!
