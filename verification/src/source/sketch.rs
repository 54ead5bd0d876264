//! Sketches.

use crate::cache::records::{SketchRecord, SketchToolRecord, SketchToolRecordSet};
use crate::{Resource, ResourceSet};
use vstd::prelude::*;

verus! {

/// A sketch, with a date of the kind `D`.
#[derive(Clone, Debug, PartialEq)]
pub struct Sketch<D> {
    pub _type: String,
    pub id: String,
    pub title: String,
    pub asset: String,
    pub author: String,
    pub publication_date: D,
    pub tools: Vec<String>,
    pub summary: Option<String>,
}

impl<D> Resource for Sketch<D> {
    type Id = String;

    fn id(&self) -> (id: &String)
        ensures
            *id == self.id,
    {
        &self.id
    }
}

/// The tools that `records` name, in their order.
pub open spec fn tools_of(records: Seq<SketchToolRecord>) -> Seq<String> {
    Seq::new(records.len(), |i: int| records[i].tool_id)
}

/// The tools that `records` name, in their order.
pub fn tools_from(records: SketchToolRecordSet) -> (tools: Vec<String>)
    ensures
        tools@ == tools_of(records.inner@),
{
    let ghost all = records.inner@;
    let mut tools: Vec<String> = Vec::new();
    for record in iter: records.inner
        invariant
            iter.seq() == all,
            tools@.len() == iter.index(),
            forall|i: int| 0 <= i < tools@.len() ==> tools@[i] == all[i].tool_id,
    {
        tools.push(record.tool_id);
    }
    assert(tools@ =~= tools_of(all));
    tools
}

impl<D> Sketch<D> {
    /// The record that stores the sketch under `checksum`, where `date`
    /// is its date as text; the tools have records of their own.
    pub fn into_record(self, checksum: String, date: String) -> (record: SketchRecord)
        ensures
            record.id == self.id,
            record.checksum == checksum,
            record.title == self.title,
            record.asset_id == self.asset,
            record.author_id == self.author,
            record.publication_date == date,
            record.summary == self.summary,
    {
        SketchRecord {
            checksum,
            id: self.id,
            title: self.title,
            asset_id: self.asset,
            author_id: self.author,
            publication_date: date,
            summary: self.summary,
        }
    }

    /// The sketch that `record` stores, where `date` is its date, with
    /// the tools that `tools` name.
    pub fn from_record(
        record: SketchRecord,
        date: D,
        tools: SketchToolRecordSet,
    ) -> (sketch: Sketch<D>)
        ensures
            sketch._type@ == "sketch"@,
            sketch.id == record.id,
            sketch.title == record.title,
            sketch.asset == record.asset_id,
            sketch.author == record.author_id,
            sketch.publication_date == date,
            sketch.summary == record.summary,
            sketch.tools@ == tools_of(tools.inner@),
    {
        Sketch {
            _type: "sketch".to_owned(),
            id: record.id,
            title: record.title,
            asset: record.asset_id,
            author: record.author_id,
            publication_date: date,
            summary: record.summary,
            tools: tools_from(tools),
        }
    }

    /// The record that pairs the sketch with the tool `tool_id`.
    pub fn tool_record(&self, tool_id: &String) -> (record: SketchToolRecord)
        ensures
            record.sketch_id == self.id,
            record.tool_id == *tool_id,
    {
        SketchToolRecord { sketch_id: self.id.clone(), tool_id: tool_id.clone() }
    }
}

/// Sketches, in their order.
#[derive(Clone, Debug)]
pub struct SketchSet<D> {
    pub inner: Vec<Sketch<D>>,
}

impl<D> SketchSet<D> {
    /// The set of `inner`, in its order.
    pub fn new(inner: Vec<Sketch<D>>) -> (set: SketchSet<D>)
        ensures
            set.inner == inner,
    {
        SketchSet { inner }
    }
}

impl<D> ResourceSet for SketchSet<D> {

}

impl<D> IntoIterator for SketchSet<D> {
    type Item = Sketch<D>;

    type IntoIter = std::vec::IntoIter<Sketch<D>>;

    /// The sketches, in their order.
    fn into_iter(self) -> (iter: std::vec::IntoIter<Sketch<D>>)
        ensures
            iter == vstd::std_specs::vec::spec_into_iter(self.inner),
    {
        self.inner.into_iter()
    }
}

} // verus!
