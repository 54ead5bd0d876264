//! The page of a project.

use crate::markdown::strip::{strip, stripped};
use crate::markdown::tokenizer::{ENABLE_ALL, markdown_events};
use crate::resource_type::ResourceType;
use crate::zola::{ZolaResource, page_path};
use vstd::prelude::*;

verus! {

/// What the page of a project says beyond the common metadata.
#[derive(Debug, Clone)]
pub struct Extra<D> {
    pub id: String,
    pub title: String,
    pub summary: String,
    pub status: String,
    pub start_date: D,
    pub end_date: Option<D>,
    pub source_url: Option<String>,
}

/// The metadata of the page of a project, with dates of the kind `D`.
#[derive(Debug, Clone)]
pub struct Metadata<D> {
    pub title: String,
    pub description: String,
    pub date: D,
    pub template: String,
    pub in_search_index: bool,
    pub extra: Extra<D>,
}

/// The page of a project.
#[derive(Debug, Clone)]
pub struct Project<D> {
    pub metadata: Metadata<D>,
    pub body: String,
}

impl<D: Copy> Project<D> {
    /// The page of the project `id`: titled and described by the plain
    /// text of its title and summary, and dated by its start.
    pub fn from_parts(
        id: String,
        title: String,
        summary: String,
        body: String,
        status: String,
        start_date: D,
        end_date: Option<D>,
        source_url: Option<String>,
    ) -> (page: Project<D>)
        ensures
            page.metadata.title@ == stripped(markdown_events(title@, ENABLE_ALL)),
            page.metadata.description@ == stripped(markdown_events(summary@, ENABLE_ALL)),
            page.metadata.date == start_date,
            page.metadata.template@ == "project.html"@,
            page.metadata.in_search_index,
            page.metadata.extra.id == id,
            page.metadata.extra.title == title,
            page.metadata.extra.summary == summary,
            page.metadata.extra.status == status,
            page.metadata.extra.start_date == start_date,
            page.metadata.extra.end_date == end_date,
            page.metadata.extra.source_url == source_url,
            page.body == body,
    {
        let clean_title = strip(title.as_str());
        let clean_description = strip(summary.as_str());
        let extra = Extra { id, title, summary, status, start_date, end_date, source_url };
        let metadata = Metadata {
            title: clean_title,
            description: clean_description,
            date: start_date,
            template: "project.html".to_owned(),
            in_search_index: true,
            extra,
        };
        Project { metadata, body }
    }
}

impl<D> ZolaResource for Project<D> {
    fn id(&self) -> (id: &str)
        ensures
            id@ == self.metadata.extra.id@,
    {
        self.metadata.extra.id.as_str()
    }

    fn path(&self) -> (path: String)
        ensures
            path@ == self.metadata.extra.id@ + ".md"@,
    {
        page_path(self.metadata.extra.id.as_str())
    }

    fn resource_type(&self) -> (kind: Option<&ResourceType>)
        ensures
            kind matches Some(k) && k is Project,
    {
        Some(&ResourceType::Project)
    }
}

} // verus!
