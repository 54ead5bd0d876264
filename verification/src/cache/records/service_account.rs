//! Service accounts as the cache holds them.

use vstd::prelude::*;

verus! {

/// A cached account of a person with a service.
#[derive(Clone, Debug, PartialEq)]
pub struct ServiceAccountRecord {
    pub id: String,
    pub person_id: String,
    pub checksum: String,
    pub name: String,
    pub username: String,
    pub url: String,
}

/// Cached service accounts, in the order in which they were read.
#[derive(Clone, Debug)]
pub struct ServiceAccountRecordSet {
    pub inner: Vec<ServiceAccountRecord>,
}

impl ServiceAccountRecordSet {
    /// The number of records.
    pub fn len(&self) -> (n: usize)
        ensures
            n == self.inner@.len(),
    {
        self.inner.len()
    }

    /// Tells whether the set holds no record.
    pub fn is_empty(&self) -> (empty: bool)
        ensures
            empty == (self.inner@.len() == 0),
    {
        self.len() == 0
    }
}

impl IntoIterator for ServiceAccountRecordSet {
    type Item = ServiceAccountRecord;

    type IntoIter = std::vec::IntoIter<ServiceAccountRecord>;

    /// The records, in their order.
    fn into_iter(self) -> (iter: std::vec::IntoIter<ServiceAccountRecord>)
        ensures
            iter == vstd::std_specs::vec::spec_into_iter(self.inner),
    {
        self.inner.into_iter()
    }
}

} // verus!
