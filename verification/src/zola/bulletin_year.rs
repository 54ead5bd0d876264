//! The page of a year of bulletins.

use crate::resource_type::ResourceType;
use crate::zola::{ZolaResource, section_path, year_description};
use vstd::prelude::*;

verus! {

/// What the page of a year says beyond the common metadata: nothing.
#[derive(Debug, Clone)]
pub struct Extra {}

/// The metadata of the page of a year, with a date of the kind `D`.
#[derive(Debug, Clone)]
pub struct Metadata<D> {
    pub title: String,
    pub description: String,
    pub date: D,
    pub template: String,
    pub in_search_index: bool,
    pub extra: Extra,
}

/// The page of a year of bulletins.
#[derive(Debug, Clone)]
pub struct BulletinYear<D> {
    pub metadata: Metadata<D>,
}

impl<D> BulletinYear<D> {
    /// The page of the year `id`, dated `date`.
    pub fn from_parts(id: String, date: D) -> (page: BulletinYear<D>)
        ensures
            page.metadata.title == id,
            page.metadata.description@ == "Issues from "@ + id@,
            page.metadata.date == date,
            page.metadata.template@ == "bulletins_year.html"@,
            page.metadata.in_search_index,
    {
        let description = year_description(id.as_str());
        let metadata = Metadata {
            title: id,
            description,
            date,
            template: "bulletins_year.html".to_owned(),
            in_search_index: true,
            extra: Extra {  },
        };
        BulletinYear { metadata }
    }
}

impl<D> ZolaResource for BulletinYear<D> {
    fn id(&self) -> (id: &str)
        ensures
            id@ == self.metadata.title@,
    {
        self.metadata.title.as_str()
    }

    fn path(&self) -> (path: String)
        ensures
            path@ == self.metadata.title@ + "/"@,
    {
        section_path(self.metadata.title.as_str())
    }

    fn resource_type(&self) -> (kind: Option<&ResourceType>)
        ensures
            kind matches Some(k) && k is Section,
    {
        Some(&ResourceType::Section)
    }
}

} // verus!
