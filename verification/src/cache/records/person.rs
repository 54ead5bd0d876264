//! People as the cache holds them.

use vstd::prelude::*;

verus! {

/// A cached person, without the accounts.
#[derive(Clone, Debug, PartialEq)]
pub struct PersonRecord {
    pub id: String,
    pub checksum: String,
    pub name: String,
    pub guest: bool,
}

/// Cached people, in the order in which they were read.
#[derive(Clone, Debug)]
pub struct PersonRecordSet {
    pub inner: Vec<PersonRecord>,
}

impl PersonRecordSet {
    /// The number of records.
    pub fn len(&self) -> (n: usize)
        ensures
            n == self.inner@.len(),
    {
        self.inner.len()
    }

    /// Tells whether the set holds no record.
    pub fn is_empty(&self) -> (empty: bool)
        ensures
            empty == (self.inner@.len() == 0),
    {
        self.len() == 0
    }
}

impl IntoIterator for PersonRecordSet {
    type Item = PersonRecord;

    type IntoIter = std::vec::IntoIter<PersonRecord>;

    /// The records, in their order.
    fn into_iter(self) -> (iter: std::vec::IntoIter<PersonRecord>)
        ensures
            iter == vstd::std_specs::vec::spec_into_iter(self.inner),
    {
        self.inner.into_iter()
    }
}

} // verus!
