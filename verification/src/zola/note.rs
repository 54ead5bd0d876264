//! The page of a note.

use crate::markdown::processor::{CANONICAL_OPTIONS, DiagramOutput, RenderError, canonical, enrich};
use crate::markdown::strip::{strip, stripped};
use crate::markdown::tokenizer::{ENABLE_ALL, markdown_events};
use crate::resource_type::ResourceType;
use crate::zola::author::Author;
use crate::zola::{ZolaResource, page_path};
use vstd::prelude::*;

verus! {

/// What the page of a note says beyond the common metadata.
#[derive(Debug, Clone)]
pub struct Extra {
    pub id: String,
    pub title: String,
    pub summary: String,
    pub author: Author,
}

/// The metadata of the page of a note, with a date of the kind `D`.
#[derive(Debug, Clone)]
pub struct Metadata<D> {
    pub title: String,
    pub description: String,
    pub date: D,
    pub template: String,
    pub in_search_index: bool,
    pub extra: Extra,
}

/// The page of a note.
#[derive(Debug, Clone)]
pub struct Note<D> {
    pub metadata: Metadata<D>,
    pub body: String,
}

impl<D> Note<D> {
    /// The page of the note `id`: titled and described by the plain
    /// text of its title and summary, with the canonical text of `body`
    /// as its body. `outputs` holds the runs of the diagram renderer for
    /// the diagram descriptions of `body`, in their order; the page
    /// fails as the rendering of its body fails.
    pub fn from_parts(
        id: String,
        title: String,
        summary: String,
        date: D,
        author: Author,
        body: &str,
        outputs: &Vec<DiagramOutput>,
    ) -> (page: Result<Note<D>, RenderError>)
        ensures
            match canonical(markdown_events(body@, CANONICAL_OPTIONS), outputs@) {
                Ok(text) => page matches Ok(p) && p.body@ == text && p.metadata.title@ == stripped(
                    markdown_events(title@, ENABLE_ALL),
                ) && p.metadata.description@ == stripped(markdown_events(summary@, ENABLE_ALL))
                    && p.metadata.date == date && p.metadata.template@ == "note.html"@
                    && p.metadata.in_search_index && p.metadata.extra.id == id
                    && p.metadata.extra.title == title && p.metadata.extra.summary == summary
                    && p.metadata.extra.author == author,
                Err(error) => page matches Err(e) && e@ == error,
            },
    {
        let text = match enrich(body, outputs) {
            Ok(text) => text,
            Err(error) => {
                return Err(error);
            },
        };
        let metadata = Metadata {
            title: strip(title.as_str()),
            description: strip(summary.as_str()),
            date,
            template: "note.html".to_owned(),
            in_search_index: true,
            extra: Extra { id, title, summary, author },
        };
        Ok(Note { metadata, body: text })
    }
}

impl<D> ZolaResource for Note<D> {
    fn id(&self) -> (id: &str)
        ensures
            id@ == self.metadata.extra.id@,
    {
        self.metadata.extra.id.as_str()
    }

    fn path(&self) -> (path: String)
        ensures
            path@ == self.metadata.extra.id@ + ".md"@,
    {
        page_path(self.metadata.extra.id.as_str())
    }

    fn resource_type(&self) -> (kind: Option<&ResourceType>)
        ensures
            kind matches Some(k) && k is Note,
    {
        Some(&ResourceType::Note)
    }
}

} // verus!
