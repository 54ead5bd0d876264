//! The settings of the site.

use crate::cache::records::SettingsRecord;
use crate::text::decode;
use crate::{Resource, ResourceSet};
use vstd::prelude::*;
use vstd::utf8::{decode_utf8, encode_utf8, encode_utf8_decode_utf8, encode_utf8_valid_utf8, valid_utf8};

verus! {

/// The licence under which the site stands.
#[derive(Clone, Debug, PartialEq)]
pub struct Licence {
    pub url: String,
    pub name: String,
}

/// The settings of the site.
#[derive(Clone, Debug, PartialEq)]
pub struct Settings {
    pub _type: String,
    pub id: String,
    pub title: String,
    pub description: String,
    pub url: String,
    pub copyright: String,
    pub navigation: Vec<String>,
    pub licence: Licence,
}

impl Resource for Settings {
    type Id = String;

    fn id(&self) -> (id: &String)
        ensures
            *id == self.id,
    {
        &self.id
    }
}

impl Settings {
    /// The record that stores the settings under `checksum`, where
    /// `source` is their source text: the record holds the text's bytes.
    pub fn into_record(self, checksum: String, source: &str) -> (record: SettingsRecord)
        ensures
            record.id == self.id,
            record.checksum == checksum,
            record.blob@ == encode_utf8(source@),
    {
        SettingsRecord { checksum, id: self.id, blob: source.as_bytes_vec() }
    }
}

/// The source text that `record` stores, or nothing where its bytes
/// are no text.
pub fn source_of(record: &SettingsRecord) -> (source: Option<String>)
    ensures
        match source {
            Some(text) => valid_utf8(record.blob@) && text@ == decode_utf8(record.blob@),
            None => !valid_utf8(record.blob@),
        },
{
    decode(&record.blob)
}

/// The bytes of a source text are text, and they give the source text
/// back: what `into_record` stores, `source_of` finds.
pub proof fn lemma_source_kept(source: Seq<char>)
    ensures
        valid_utf8(encode_utf8(source)),
        decode_utf8(encode_utf8(source)) == source,
{
    encode_utf8_valid_utf8(source);
    encode_utf8_decode_utf8(source);
}

/// Settings, in their order.
#[derive(Clone, Debug)]
pub struct SettingsSet {
    pub inner: Vec<Settings>,
}

impl SettingsSet {
    /// The set of `inner`, in its order.
    pub fn new(inner: Vec<Settings>) -> (set: SettingsSet)
        ensures
            set.inner == inner,
    {
        SettingsSet { inner }
    }
}

impl ResourceSet for SettingsSet {

}

impl IntoIterator for SettingsSet {
    type Item = Settings;

    type IntoIter = std::vec::IntoIter<Settings>;

    /// The settings, in their order.
    fn into_iter(self) -> (iter: std::vec::IntoIter<Settings>)
        ensures
            iter == vstd::std_specs::vec::spec_into_iter(self.inner),
    {
        self.inner.into_iter()
    }
}

} // verus!
