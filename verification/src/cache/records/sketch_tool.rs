//! The tools of sketches as the cache holds them.

use vstd::prelude::*;

verus! {

/// A cached pair of a sketch and a tool it was made with.
#[derive(Clone, Debug, PartialEq)]
pub struct SketchToolRecord {
    pub sketch_id: String,
    pub tool_id: String,
}

/// Cached pairs of sketch and tool, in the order in which they were read.
#[derive(Clone, Debug)]
pub struct SketchToolRecordSet {
    pub inner: Vec<SketchToolRecord>,
}

impl SketchToolRecordSet {
    /// The number of records.
    pub fn len(&self) -> (n: usize)
        ensures
            n == self.inner@.len(),
    {
        self.inner.len()
    }

    /// Tells whether the set holds no record.
    pub fn is_empty(&self) -> (empty: bool)
        ensures
            empty == (self.inner@.len() == 0),
    {
        self.len() == 0
    }
}

impl IntoIterator for SketchToolRecordSet {
    type Item = SketchToolRecord;

    type IntoIter = std::vec::IntoIter<SketchToolRecord>;

    /// The records, in their order.
    fn into_iter(self) -> (iter: std::vec::IntoIter<SketchToolRecord>)
        ensures
            iter == vstd::std_specs::vec::spec_into_iter(self.inner),
    {
        self.inner.into_iter()
    }
}

} // verus!
