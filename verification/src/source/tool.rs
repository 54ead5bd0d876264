//! Tools: what sketches are made with.

use crate::cache::records::ToolRecord;
use crate::source::{body_of, frame, framed, optional_body};
use crate::text::optional_text;
use crate::{Resource, ResourceSet};
use vstd::prelude::*;
use vstd::std_specs::convert::FromSpecImpl;

verus! {

/// A tool, with a summary and an address where it has them.
#[derive(Clone, Debug, PartialEq)]
pub struct Tool {
    pub id: String,
    pub name: String,
    pub summary: Option<String>,
    pub url: Option<String>,
}

impl Resource for Tool {
    type Id = String;

    fn id(&self) -> (id: &String)
        ensures
            *id == self.id,
    {
        &self.id
    }
}

impl Tool {
    /// The tool that a preamble with `id`, `name` and `url` describes,
    /// with the summary that `body`, the text behind the preamble, holds.
    pub fn from_parts(id: String, name: String, url: Option<String>, body: &str) -> (tool: Tool)
        ensures
            tool.id == id,
            tool.name == name,
            tool.url == url,
            optional_text(tool.summary) == optional_body(body@),
    {
        Tool { id, name, summary: body_of(body), url }
    }

    /// The source text of the tool, where `yaml` is its preamble.
    pub fn to_source(&self, yaml: &str) -> (text: String)
        ensures
            text@ == framed(yaml@, optional_text(self.summary)),
    {
        frame(yaml, &self.summary)
    }

    /// The record that stores the tool under `checksum`.
    pub fn into_record(self, checksum: String) -> (record: ToolRecord)
        ensures
            record.id == self.id,
            record.checksum == checksum,
            record.name == self.name,
            record.summary == self.summary,
            record.url == self.url,
    {
        ToolRecord {
            checksum,
            id: self.id,
            name: self.name,
            summary: self.summary,
            url: self.url,
        }
    }
}

/// The tool that `record` stores.
pub open spec fn tool_of(record: ToolRecord) -> Tool {
    Tool { id: record.id, name: record.name, summary: record.summary, url: record.url }
}

impl From<ToolRecord> for Tool {
    fn from(record: ToolRecord) -> (tool: Tool) {
        Tool { id: record.id, name: record.name, summary: record.summary, url: record.url }
    }
}

impl FromSpecImpl<ToolRecord> for Tool {
    open spec fn obeys_from_spec() -> bool {
        true
    }

    open spec fn from_spec(record: ToolRecord) -> Tool {
        tool_of(record)
    }
}

/// Tools, in their order.
#[derive(Clone, Debug)]
pub struct ToolSet {
    pub inner: Vec<Tool>,
}

impl ToolSet {
    /// The set of `inner`, in its order.
    pub fn new(inner: Vec<Tool>) -> (set: ToolSet)
        ensures
            set.inner == inner,
    {
        ToolSet { inner }
    }
}

impl ResourceSet for ToolSet {

}

impl IntoIterator for ToolSet {
    type Item = Tool;

    type IntoIter = std::vec::IntoIter<Tool>;

    /// The tools, in their order.
    fn into_iter(self) -> (iter: std::vec::IntoIter<Tool>)
        ensures
            iter == vstd::std_specs::vec::spec_into_iter(self.inner),
    {
        self.inner.into_iter()
    }
}

} // verus!
