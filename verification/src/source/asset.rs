//! Assets: files that are carried through as they are.

use crate::cache::records::AssetRecord;
use crate::{Resource, ResourceSet};
use vstd::prelude::*;
use vstd::std_specs::convert::FromSpecImpl;

verus! {

/// An asset: a file name, the kind of content and the content.
#[derive(Clone, Debug, PartialEq)]
pub struct Asset {
    pub id: String,
    pub content_type: String,
    pub content: Vec<u8>,
}

impl Resource for Asset {
    type Id = String;

    fn id(&self) -> (id: &String)
        ensures
            *id == self.id,
    {
        &self.id
    }
}

impl Asset {
    /// An asset with the given name, kind of content and content.
    pub fn new(id: String, content_type: String, content: Vec<u8>) -> (asset: Asset)
        ensures
            asset.id == id,
            asset.content_type == content_type,
            asset.content == content,
    {
        Asset { id, content_type, content }
    }

    /// The record that stores the asset under `checksum`.
    pub fn into_record(self, checksum: String) -> (record: AssetRecord)
        ensures
            record.id == self.id,
            record.checksum == checksum,
            record.content_type == self.content_type,
            record.content == self.content,
    {
        AssetRecord {
            checksum,
            id: self.id,
            content_type: self.content_type,
            content: self.content,
        }
    }
}

impl From<AssetRecord> for Asset {
    fn from(record: AssetRecord) -> (asset: Asset) {
        Asset { id: record.id, content_type: record.content_type, content: record.content }
    }
}

impl FromSpecImpl<AssetRecord> for Asset {
    open spec fn obeys_from_spec() -> bool {
        true
    }

    open spec fn from_spec(record: AssetRecord) -> Asset {
        Asset { id: record.id, content_type: record.content_type, content: record.content }
    }
}

/// Assets, in their order.
#[derive(Clone, Debug)]
pub struct AssetSet {
    pub inner: Vec<Asset>,
}

impl AssetSet {
    /// The set of `inner`, in its order.
    pub fn new(inner: Vec<Asset>) -> (set: AssetSet)
        ensures
            set.inner == inner,
    {
        AssetSet { inner }
    }
}

impl ResourceSet for AssetSet {

}

impl IntoIterator for AssetSet {
    type Item = Asset;

    type IntoIter = std::vec::IntoIter<Asset>;

    /// The assets, in their order.
    fn into_iter(self) -> (iter: std::vec::IntoIter<Asset>)
        ensures
            iter == vstd::std_specs::vec::spec_into_iter(self.inner),
    {
        self.inner.into_iter()
    }
}

} // verus!
