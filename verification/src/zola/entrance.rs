//! The first page of the site, with the latest updates.

use crate::cache::records::{EntranceRecord, UpdateRecord};
use crate::resource_type::ResourceType;
use crate::zola::{ZolaResource, update_path, update_target};
use vstd::prelude::*;

verus! {

/// An update: a resource that was published, and where it stands.
#[derive(Debug, Clone)]
pub struct Update<D> {
    pub id: String,
    pub title: String,
    pub summary: Option<String>,
    pub section: String,
    pub date: D,
    pub path: String,
}

impl<D> Update<D> {
    /// The update that `record` stores, where `date` is its date and
    /// `year` the year of that date.
    pub fn from_record(record: UpdateRecord, date: D, year: &str) -> (update: Update<D>)
        ensures
            update.id == record.id,
            update.title == record.title,
            update.summary == record.summary,
            update.section == record.section,
            update.date == date,
            update.path@ == update_target(record.section@, year@, record.id@),
    {
        let path = update_path(record.section.as_str(), year, record.id.as_str());
        Update {
            path,
            id: record.id,
            title: record.title,
            section: record.section,
            summary: record.summary,
            date,
        }
    }
}

/// What the first page says beyond the common metadata.
#[derive(Debug, Clone)]
pub struct Extra<D> {
    pub id: String,
    pub latest_updates: Vec<Update<D>>,
}

/// The metadata of the first page.
#[derive(Debug, Clone)]
pub struct Metadata<D> {
    pub title: String,
    pub template: String,
    pub extra: Extra<D>,
}

/// The first page of the site.
#[derive(Debug, Clone)]
pub struct Entrance<D> {
    pub metadata: Metadata<D>,
    pub body: Option<String>,
}

impl<D> Entrance<D> {
    /// The first page that `record` stores, with the latest updates.
    pub fn from_record(
        record: EntranceRecord,
        latest_updates: Vec<Update<D>>,
    ) -> (page: Entrance<D>)
        ensures
            page.metadata.title@ == "Recent updates"@,
            page.metadata.template@ == "index.html"@,
            page.metadata.extra.id == record.id,
            page.metadata.extra.latest_updates == latest_updates,
            page.body == record.body,
    {
        let extra = Extra { id: record.id, latest_updates };
        let metadata = Metadata {
            title: "Recent updates".to_owned(),
            template: "index.html".to_owned(),
            extra,
        };
        Entrance { metadata, body: record.body }
    }
}

impl<D> ZolaResource for Entrance<D> {
    fn id(&self) -> (id: &str)
        ensures
            id@ == self.metadata.extra.id@,
    {
        self.metadata.extra.id.as_str()
    }

    fn path(&self) -> (path: String)
        ensures
            path@ == "_index.md"@,
    {
        "_index.md".to_owned()
    }

    fn resource_type(&self) -> (kind: Option<&ResourceType>)
        ensures
            kind matches Some(k) && k is Entrance,
    {
        Some(&ResourceType::Entrance)
    }
}

} // verus!
