//! The page of a sketch.

use crate::markdown::strip::{strip, stripped};
use crate::markdown::tokenizer::{ENABLE_ALL, markdown_events};
use crate::resource_type::ResourceType;
use crate::zola::author::Author;
use crate::text::optional_text;
use crate::zola::section::described;
use crate::zola::ZolaResource;
use vstd::prelude::*;

verus! {

/// The picture of a sketch.
#[derive(Debug, Clone)]
pub struct Asset {
    pub id: String,
    pub blob: Vec<u8>,
}

impl Asset {
    /// The content of the picture.
    pub fn blob(&self) -> (bytes: &[u8])
        ensures
            bytes@ == self.blob@,
    {
        self.blob.as_slice()
    }

    /// The file name of the picture.
    pub fn id(&self) -> (id: &str)
        ensures
            id@ == self.id@,
    {
        self.id.as_str()
    }
}

/// A tool that a sketch was made with.
#[derive(Debug, Clone)]
pub struct Tool {
    pub id: String,
    pub name: String,
    pub url: Option<String>,
}

/// What the page of a sketch says beyond the common metadata.
#[derive(Debug, Clone)]
pub struct Extra {
    pub id: String,
    pub title: String,
    pub asset_id: String,
    pub author: Author,
    pub tools: Vec<Tool>,
}

/// The metadata of the page of a sketch, with a date of the kind `D`.
#[derive(Debug, Clone)]
pub struct Metadata<D> {
    pub title: String,
    pub description: Option<String>,
    pub date: D,
    pub slug: String,
    pub template: String,
    pub in_search_index: bool,
    pub extra: Extra,
}

/// The page of a sketch.
#[derive(Debug, Clone)]
pub struct Sketch<D> {
    pub metadata: Metadata<D>,
    pub body: Option<String>,
}

/// The page of a sketch together with its picture.
#[derive(Debug, Clone)]
pub struct SketchBundle<D> {
    pub sketch: Sketch<D>,
    pub asset: Asset,
}

impl<D> SketchBundle<D> {
    /// The page of the sketch `id` and its picture: titled by the plain
    /// text of its title, described by the plain text of its body where
    /// it has one, and without tools yet.
    pub fn from_parts(
        id: String,
        title: String,
        body: Option<String>,
        date: D,
        author: Author,
        asset_id: String,
        asset: Vec<u8>,
    ) -> (bundle: SketchBundle<D>)
        ensures
            bundle.sketch.metadata.title@ == stripped(markdown_events(title@, ENABLE_ALL)),
            optional_text(bundle.sketch.metadata.description) == described(body),
            bundle.sketch.metadata.date == date,
            bundle.sketch.metadata.slug@ == id@,
            bundle.sketch.metadata.template@ == "sketch.html"@,
            bundle.sketch.metadata.in_search_index,
            bundle.sketch.metadata.extra.id@ == id@,
            bundle.sketch.metadata.extra.title == title,
            bundle.sketch.metadata.extra.asset_id@ == asset_id@,
            bundle.sketch.metadata.extra.author == author,
            bundle.sketch.metadata.extra.tools@.len() == 0,
            bundle.sketch.body == body,
            bundle.asset.id == asset_id,
            bundle.asset.blob == asset,
    {
        let description = match &body {
            Some(text) => Some(strip(text.as_str())),
            None => None,
        };
        let clean_title = strip(title.as_str());
        let extra = Extra {
            id: id.clone(),
            title,
            asset_id: asset_id.clone(),
            author,
            tools: Vec::new(),
        };
        let metadata = Metadata {
            title: clean_title,
            description,
            slug: id,
            date,
            template: "sketch.html".to_owned(),
            in_search_index: true,
            extra,
        };
        SketchBundle { sketch: Sketch { metadata, body }, asset: Asset { blob: asset, id: asset_id } }
    }
}

impl<D> ZolaResource for Sketch<D> {
    fn id(&self) -> (id: &str)
        ensures
            id@ == self.metadata.extra.id@,
    {
        self.metadata.extra.id.as_str()
    }

    fn path(&self) -> (path: String)
        ensures
            path@ == "index.md"@,
    {
        "index.md".to_owned()
    }

    fn resource_type(&self) -> (kind: Option<&ResourceType>)
        ensures
            kind matches Some(k) && k is Bulletin,
    {
        Some(&ResourceType::Bulletin)
    }
}

} // verus!
