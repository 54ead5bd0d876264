//! The entrance as the cache holds it.

use vstd::prelude::*;

verus! {

/// The cached entrance page.
#[derive(Clone, Debug, PartialEq)]
pub struct EntranceRecord {
    pub id: String,
    pub checksum: String,
    pub body: Option<String>,
}

} // verus!
