//! The feed: the latest resources of the site, as a channel of items.

use crate::text::{push_str, string_of};
use vstd::prelude::*;

verus! {

/// The address of the resource `id` of `section` on the site at `base`.
pub fn item_url(base: &str, section: &str, id: &str) -> (url: String)
    ensures
        url@ == base@ + "/"@ + section@ + "/"@ + id@,
{
    let mut out: Vec<char> = Vec::new();
    push_str(&mut out, base);
    push_str(&mut out, "/");
    push_str(&mut out, section);
    push_str(&mut out, "/");
    push_str(&mut out, id);
    string_of(&out)
}

} // verus!
