//! Sections: the parts of the site.

use crate::cache::records::SectionRecord;
use crate::source::{body_of, frame, framed, optional_body};
use crate::text::optional_text;
use crate::{Resource, ResourceSet};
use vstd::prelude::*;
use vstd::std_specs::convert::FromSpecImpl;

verus! {

/// A section, with the kind of resource it lists and a body where it
/// has them.
#[derive(Clone, Debug, PartialEq)]
pub struct Section {
    pub id: String,
    pub title: String,
    pub resource_type: Option<String>,
    pub body: Option<String>,
}

impl Resource for Section {
    type Id = String;

    fn id(&self) -> (id: &String)
        ensures
            *id == self.id,
    {
        &self.id
    }
}

impl Section {
    /// The section that a preamble with `id`, `title` and
    /// `resource_type` describes, with the body that `text`, the text
    /// behind the preamble, holds.
    pub fn from_parts(
        id: String,
        title: String,
        resource_type: Option<String>,
        text: &str,
    ) -> (section: Section)
        ensures
            section.id == id,
            section.title == title,
            section.resource_type == resource_type,
            optional_text(section.body) == optional_body(text@),
    {
        Section { id, title, resource_type, body: body_of(text) }
    }

    /// The source text of the section, where `yaml` is its preamble.
    pub fn to_source(&self, yaml: &str) -> (text: String)
        ensures
            text@ == framed(yaml@, optional_text(self.body)),
    {
        frame(yaml, &self.body)
    }

    /// The record that stores the section under `checksum`.
    pub fn into_record(self, checksum: String) -> (record: SectionRecord)
        ensures
            record.id == self.id,
            record.checksum == checksum,
            record.title == self.title,
            record.resource_type == self.resource_type,
            record.body == self.body,
    {
        SectionRecord {
            checksum,
            id: self.id,
            title: self.title,
            resource_type: self.resource_type,
            body: self.body,
        }
    }
}

/// The section that `record` stores.
pub open spec fn section_of(record: SectionRecord) -> Section {
    Section {
        id: record.id,
        title: record.title,
        resource_type: record.resource_type,
        body: record.body,
    }
}

impl From<SectionRecord> for Section {
    fn from(record: SectionRecord) -> (section: Section) {
        Section {
            id: record.id,
            title: record.title,
            resource_type: record.resource_type,
            body: record.body,
        }
    }
}

impl FromSpecImpl<SectionRecord> for Section {
    open spec fn obeys_from_spec() -> bool {
        true
    }

    open spec fn from_spec(record: SectionRecord) -> Section {
        section_of(record)
    }
}

/// Sections, in their order.
#[derive(Clone, Debug)]
pub struct SectionSet {
    pub inner: Vec<Section>,
}

impl SectionSet {
    /// The set of `inner`, in its order.
    pub fn new(inner: Vec<Section>) -> (set: SectionSet)
        ensures
            set.inner == inner,
    {
        SectionSet { inner }
    }
}

impl ResourceSet for SectionSet {

}

impl IntoIterator for SectionSet {
    type Item = Section;

    type IntoIter = std::vec::IntoIter<Section>;

    /// The sections, in their order.
    fn into_iter(self) -> (iter: std::vec::IntoIter<Section>)
        ensures
            iter == vstd::std_specs::vec::spec_into_iter(self.inner),
    {
        self.inner.into_iter()
    }
}

} // verus!
