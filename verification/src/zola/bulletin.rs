//! The page of an issue of the bulletin.

use crate::markdown::strip::{strip, stripped};
use crate::markdown::tokenizer::{ENABLE_ALL, markdown_events};
use crate::resource_type::ResourceType;
use crate::zola::{ZolaResource, page_path};
use vstd::prelude::*;

verus! {

/// The slug that `slug::slugify` makes of a text.
pub uninterp spec fn slugified(text: Seq<char>) -> Seq<char>;

/// `slug::slugify`: the slug of `text`, a function of the text alone.
#[verifier::external_body]
fn slug_of(text: &str) -> (slug: String)
    ensures
        slug@ == slugified(text@),
{
    slug::slugify(text)
}

/// An entry of a bulletin, with the slug of its title.
#[derive(Debug, Clone)]
pub struct Entry {
    pub url: String,
    pub slug: String,
    pub title: String,
    pub summary: String,
    pub content_type: String,
}

impl Entry {
    /// The entry for `url`, with the slug that its title gives.
    pub fn new(
        url: String,
        title: String,
        summary: String,
        content_type: String,
    ) -> (entry: Entry)
        ensures
            entry.url == url,
            entry.slug@ == slugified(title@),
            entry.title == title,
            entry.summary == summary,
            entry.content_type == content_type,
    {
        let slug = slug_of(title.as_str());
        Entry { url, slug, title, summary, content_type }
    }
}

/// What the page of an issue says beyond the common metadata.
#[derive(Debug, Clone)]
pub struct Extra {
    pub id: String,
    pub entries: Vec<Entry>,
}

/// The metadata of the page of an issue, with a date of the kind `D`.
#[derive(Debug, Clone)]
pub struct Metadata<D> {
    pub title: String,
    pub description: String,
    pub date: D,
    pub slug: String,
    pub template: String,
    pub in_search_index: bool,
    pub extra: Extra,
}

/// The page of an issue of the bulletin.
#[derive(Debug, Clone)]
pub struct Bulletin<D> {
    pub metadata: Metadata<D>,
    pub body: String,
}

impl<D> Bulletin<D> {
    /// The page of the issue `id`: titled by its name, described by the
    /// plain text of its body, and without entries yet.
    pub fn from_parts(id: String, body: String, date: D) -> (page: Bulletin<D>)
        ensures
            page.metadata.title@ == id@,
            page.metadata.description@ == stripped(markdown_events(body@, ENABLE_ALL)),
            page.metadata.date == date,
            page.metadata.slug@ == id@,
            page.metadata.template@ == "bulletin.html"@,
            page.metadata.in_search_index,
            page.metadata.extra.id@ == id@,
            page.metadata.extra.entries@.len() == 0,
            page.body == body,
    {
        let description = strip(body.as_str());
        let extra = Extra { id: id.clone(), entries: Vec::new() };
        let metadata = Metadata {
            slug: id.clone(),
            title: id,
            description,
            date,
            template: "bulletin.html".to_owned(),
            in_search_index: true,
            extra,
        };
        Bulletin { metadata, body }
    }
}

impl<D> ZolaResource for Bulletin<D> {
    fn id(&self) -> (id: &str)
        ensures
            id@ == self.metadata.extra.id@,
    {
        self.metadata.extra.id.as_str()
    }

    fn path(&self) -> (path: String)
        ensures
            path@ == self.metadata.extra.id@ + ".md"@,
    {
        page_path(self.metadata.extra.id.as_str())
    }

    fn resource_type(&self) -> (kind: Option<&ResourceType>)
        ensures
            kind matches Some(k) && k is Bulletin,
    {
        Some(&ResourceType::Bulletin)
    }
}

} // verus!
