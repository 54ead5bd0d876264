//! The author of a page.

use vstd::prelude::*;

verus! {

/// The author of a page.
#[derive(Debug, Clone)]
pub struct Author {
    pub id: String,
    pub name: String,
    pub guest: bool,
}

} // verus!
