//! Notes.

use crate::cache::records::NoteRecord;
use crate::markdown::document::{Markdown, compose, composed};
use crate::{Resource, ResourceSet};
use vstd::prelude::*;

verus! {

/// A note, with a date of the kind `D`.
#[derive(Clone, Debug, PartialEq)]
pub struct Note<D> {
    pub id: String,
    pub title: String,
    pub summary: String,
    pub publication_date: D,
    pub author: String,
    pub body: String,
}

impl<D> Resource for Note<D> {
    type Id = String;

    fn id(&self) -> (id: &String)
        ensures
            *id == self.id,
    {
        &self.id
    }
}

impl<D> Note<D> {
    /// The note that the document `parts` holds, where its preamble
    /// names `id`, `publication_date` and `author`. A note has a summary.
    pub fn from_document(
        parts: Markdown,
        id: String,
        publication_date: D,
        author: String,
    ) -> (note: Note<D>)
        requires
            parts.summary is Some,
        ensures
            note.id == id,
            note.title == parts.title,
            Some(note.summary) == parts.summary,
            note.publication_date == publication_date,
            note.author == author,
            note.body == parts.body,
    {
        let Markdown { frontmatter: _, title, summary, body } = parts;
        Note { id, title, summary: summary.unwrap(), publication_date, author, body }
    }

    /// The source text of the note, where `yaml` is its preamble.
    pub fn to_source(&self, yaml: &str) -> (text: String)
        ensures
            text@ == composed("---\n"@ + yaml@, self.title@, self.summary@, self.body@),
    {
        let head = "---\n".to_owned().concat(yaml);
        compose(head.as_str(), self.title.as_str(), self.summary.as_str(), self.body.as_str())
    }

    /// The record that stores the note under `checksum`, where `date`
    /// is its date as text.
    pub fn into_record(self, checksum: String, date: String) -> (record: NoteRecord)
        ensures
            record.id == self.id,
            record.checksum == checksum,
            record.title == self.title,
            record.summary == self.summary,
            record.publication_date == date,
            record.author_id == self.author,
            record.body == self.body,
    {
        NoteRecord {
            checksum,
            id: self.id,
            title: self.title,
            summary: self.summary,
            publication_date: date,
            author_id: self.author,
            body: self.body,
        }
    }

    /// The note that `record` stores, where `date` is its date.
    pub fn from_record(record: NoteRecord, date: D) -> (note: Note<D>)
        ensures
            note.id == record.id,
            note.title == record.title,
            note.summary == record.summary,
            note.publication_date == date,
            note.author == record.author_id,
            note.body == record.body,
    {
        Note {
            id: record.id,
            title: record.title,
            summary: record.summary,
            publication_date: date,
            author: record.author_id,
            body: record.body,
        }
    }
}

/// Notes, in their order.
#[derive(Clone, Debug)]
pub struct NoteSet<D> {
    pub inner: Vec<Note<D>>,
}

impl<D> NoteSet<D> {
    /// The set of `inner`, in its order.
    pub fn new(inner: Vec<Note<D>>) -> (set: NoteSet<D>)
        ensures
            set.inner == inner,
    {
        NoteSet { inner }
    }
}

impl<D> ResourceSet for NoteSet<D> {

}

impl<D> IntoIterator for NoteSet<D> {
    type Item = Note<D>;

    type IntoIter = std::vec::IntoIter<Note<D>>;

    /// The notes, in their order.
    fn into_iter(self) -> (iter: std::vec::IntoIter<Note<D>>)
        ensures
            iter == vstd::std_specs::vec::spec_into_iter(self.inner),
    {
        self.inner.into_iter()
    }
}

} // verus!
