//! Projects.

use crate::cache::records::ProjectRecord;
use crate::markdown::document::{Markdown, compose, composed};
use crate::{Resource, ResourceSet};
use vstd::prelude::*;

verus! {

/// A project, with dates of the kind `D`.
#[derive(Clone, Debug, PartialEq)]
pub struct Project<D> {
    pub id: String,
    pub name: String,
    pub summary: String,
    pub body: String,
    pub status: String,
    pub start_date: D,
    pub end_date: Option<D>,
    pub source_url: Option<String>,
}

impl<D> Resource for Project<D> {
    type Id = String;

    fn id(&self) -> (id: &String)
        ensures
            *id == self.id,
    {
        &self.id
    }
}

impl<D> Project<D> {
    /// The project that the document `parts` holds, named by its title,
    /// where its preamble names the rest. A project has a summary.
    pub fn from_document(
        parts: Markdown,
        id: String,
        status: String,
        start_date: D,
        end_date: Option<D>,
        source_url: Option<String>,
    ) -> (project: Project<D>)
        requires
            parts.summary is Some,
        ensures
            project.id == id,
            project.name == parts.title,
            Some(project.summary) == parts.summary,
            project.body == parts.body,
            project.status == status,
            project.start_date == start_date,
            project.end_date == end_date,
            project.source_url == source_url,
    {
        let Markdown { frontmatter: _, title, summary, body } = parts;
        Project {
            id,
            name: title,
            summary: summary.unwrap(),
            body,
            status,
            start_date,
            end_date,
            source_url,
        }
    }

    /// The source text of the project, where `yaml` is its preamble
    /// with the opening delimiter line.
    pub fn to_source(&self, yaml: &str) -> (text: String)
        ensures
            text@ == composed(yaml@, self.name@, self.summary@, self.body@),
    {
        compose(yaml, self.name.as_str(), self.summary.as_str(), self.body.as_str())
    }

    /// The record that stores the project under `checksum`, where
    /// `start_date` and `end_date` are its dates as text.
    pub fn into_record(
        self,
        checksum: String,
        start_date: String,
        end_date: Option<String>,
    ) -> (record: ProjectRecord)
        ensures
            record.id == self.id,
            record.checksum == checksum,
            record.name == self.name,
            record.summary == self.summary,
            record.body == self.body,
            record.status == self.status,
            record.start_date == start_date,
            record.end_date == end_date,
            record.source_url == self.source_url,
    {
        ProjectRecord {
            checksum,
            id: self.id,
            name: self.name,
            summary: self.summary,
            status: self.status,
            start_date,
            end_date,
            source_url: self.source_url,
            body: self.body,
        }
    }

    /// The project that `record` stores, where `start_date` and
    /// `end_date` are its dates.
    pub fn from_record(
        record: ProjectRecord,
        start_date: D,
        end_date: Option<D>,
    ) -> (project: Project<D>)
        ensures
            project.id == record.id,
            project.name == record.name,
            project.summary == record.summary,
            project.body == record.body,
            project.status == record.status,
            project.start_date == start_date,
            project.end_date == end_date,
            project.source_url == record.source_url,
    {
        Project {
            id: record.id,
            name: record.name,
            summary: record.summary,
            status: record.status,
            start_date,
            end_date,
            source_url: record.source_url,
            body: record.body,
        }
    }
}

/// Projects, in their order.
#[derive(Clone, Debug)]
pub struct ProjectSet<D> {
    pub inner: Vec<Project<D>>,
}

impl<D> ProjectSet<D> {
    /// The set of `inner`, in its order.
    pub fn new(inner: Vec<Project<D>>) -> (set: ProjectSet<D>)
        ensures
            set.inner == inner,
    {
        ProjectSet { inner }
    }
}

impl<D> ResourceSet for ProjectSet<D> {

}

impl<D> IntoIterator for ProjectSet<D> {
    type Item = Project<D>;

    type IntoIter = std::vec::IntoIter<Project<D>>;

    /// The projects, in their order.
    fn into_iter(self) -> (iter: std::vec::IntoIter<Project<D>>)
        ensures
            iter == vstd::std_specs::vec::spec_into_iter(self.inner),
    {
        self.inner.into_iter()
    }
}

} // verus!
