//! The entrance: the first page of the site.

use crate::cache::records::EntranceRecord;
use crate::source::{body_of, close, closed, optional_body};
use crate::text::optional_text;
use crate::Resource;
use vstd::prelude::*;
use vstd::std_specs::convert::FromSpecImpl;

verus! {

/// The entrance, with a body where it has one.
#[derive(Clone, Debug, PartialEq)]
pub struct Entrance {
    pub id: String,
    pub body: Option<String>,
}

impl Resource for Entrance {
    type Id = String;

    fn id(&self) -> (id: &String)
        ensures
            *id == self.id,
    {
        &self.id
    }
}

impl Entrance {
    /// The entrance that a preamble with `id` describes, with the body
    /// that `text`, the text behind the preamble, holds.
    pub fn from_parts(id: String, text: &str) -> (entrance: Entrance)
        ensures
            entrance.id == id,
            optional_text(entrance.body) == optional_body(text@),
    {
        Entrance { id, body: body_of(text) }
    }

    /// The source text of the entrance, where `yaml` is its preamble
    /// with the opening delimiter line.
    pub fn to_source(&self, yaml: &str) -> (text: String)
        ensures
            text@ == closed(yaml@, optional_text(self.body)),
    {
        close(yaml, &self.body)
    }

    /// The record that stores the entrance under `checksum`.
    pub fn into_record(self, checksum: String) -> (record: EntranceRecord)
        ensures
            record.id == self.id,
            record.checksum == checksum,
            record.body == self.body,
    {
        EntranceRecord { checksum, id: self.id, body: self.body }
    }
}

/// The entrance that `record` stores.
pub open spec fn entrance_of(record: EntranceRecord) -> Entrance {
    Entrance { id: record.id, body: record.body }
}

impl From<EntranceRecord> for Entrance {
    fn from(record: EntranceRecord) -> (entrance: Entrance) {
        Entrance { id: record.id, body: record.body }
    }
}

impl FromSpecImpl<EntranceRecord> for Entrance {
    open spec fn obeys_from_spec() -> bool {
        true
    }

    open spec fn from_spec(record: EntranceRecord) -> Entrance {
        entrance_of(record)
    }
}

} // verus!
