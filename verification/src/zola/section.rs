//! The page of a section.

use crate::cache::records::SectionRecord;
use crate::markdown::strip::{strip, stripped};
use crate::markdown::tokenizer::{ENABLE_ALL, markdown_events};
use crate::resource_type::{ResourceType, ResourceTypeView, named_type};
use crate::text::{chars_of, optional_text, push_str, string_of};
use crate::zola::{ZolaResource, section_path};
use vstd::prelude::*;

verus! {

/// What the page of a section says beyond the common metadata.
#[derive(Debug, Clone)]
pub struct Extra {
    pub id: String,
    pub resource_type: Option<ResourceType>,
}

/// The metadata of the page of a section.
#[derive(Debug, Clone)]
pub struct Metadata {
    pub title: String,
    pub description: Option<String>,
    pub slug: String,
    pub template: String,
    pub sort_by: String,
    pub insert_anchor_links: String,
    pub in_search_index: bool,
    pub generate_feed: bool,
    pub extra: Extra,
}

/// The page of a section.
#[derive(Debug, Clone)]
pub struct Section {
    pub metadata: Metadata,
    pub body: Option<String>,
}

/// The plain text of an optional body.
pub open spec fn described(body: Option<String>) -> Option<Seq<char>> {
    match body {
        Some(text) => Some(stripped(markdown_events(text@, ENABLE_ALL))),
        None => None,
    }
}

/// The kind of resource that an optional name stands for.
pub open spec fn listed(name: Option<String>) -> Option<ResourceTypeView> {
    match name {
        Some(s) => Some(named_type(s@)),
        None => None,
    }
}

/// The view of an optional kind of resource.
pub open spec fn kind_view(kind: Option<ResourceType>) -> Option<ResourceTypeView> {
    match kind {
        Some(k) => Some(k@),
        None => None,
    }
}

impl Section {
    /// The page of the section that `record` stores: titled as the
    /// section, described by the plain text of its body, with the
    /// section's name as its slug and in the name of its template,
    /// sorted by date and left out of the feed.
    pub fn from_record(record: SectionRecord) -> (page: Section)
        ensures
            page.metadata.title == record.title,
            optional_text(page.metadata.description) == described(record.body),
            page.metadata.slug@ == record.id@,
            page.metadata.template@ == record.id@ + ".html"@,
            page.metadata.sort_by@ == "date"@,
            page.metadata.insert_anchor_links@ == "left"@,
            page.metadata.in_search_index,
            !page.metadata.generate_feed,
            page.metadata.extra.id@ == record.id@,
            kind_view(page.metadata.extra.resource_type) == listed(record.resource_type),
            page.body == record.body,
    {
        let resource_type = match &record.resource_type {
            Some(name) => match ResourceType::from_str(name.as_str()) {
                Ok(kind) => Some(kind),
                Err(_) => None,
            },
            None => None,
        };
        let description = match &record.body {
            Some(text) => Some(strip(text.as_str())),
            None => None,
        };
        let mut template: Vec<char> = Vec::new();
        push_str(&mut template, record.id.as_str());
        push_str(&mut template, ".html");
        let extra = Extra { id: record.id.clone(), resource_type };
        let metadata = Metadata {
            title: record.title,
            description,
            slug: record.id.clone(),
            template: string_of(&template),
            sort_by: string_of(&chars_of("date")),
            insert_anchor_links: string_of(&chars_of("left")),
            in_search_index: true,
            generate_feed: false,
            extra,
        };
        Section { metadata, body: record.body }
    }
}

impl ZolaResource for Section {
    fn id(&self) -> (id: &str)
        ensures
            id@ == self.metadata.extra.id@,
    {
        self.metadata.extra.id.as_str()
    }

    fn path(&self) -> (path: String)
        ensures
            path@ == self.metadata.extra.id@ + "/"@,
    {
        section_path(self.metadata.extra.id.as_str())
    }

    fn resource_type(&self) -> (kind: Option<&ResourceType>)
        ensures
            match kind {
                Some(k) => self.metadata.extra.resource_type == Some(*k),
                None => self.metadata.extra.resource_type is None,
            },
    {
        self.metadata.extra.resource_type.as_ref()
    }
}

} // verus!
