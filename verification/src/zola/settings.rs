//! The settings as the site stage writes them.

use crate::resource_type::ResourceType;
use crate::text::{chars_of, string_of};
use crate::zola::ZolaResource;
use vstd::prelude::*;

verus! {

/// The licence under which the site stands.
#[derive(Clone, Debug, PartialEq)]
pub struct Licence {
    pub url: String,
    pub name: String,
}

/// The settings of the site.
#[derive(Clone, Debug, PartialEq)]
pub struct Settings {
    pub _type: String,
    pub id: String,
    pub title: String,
    pub description: String,
    pub url: String,
    pub copyright: String,
    pub navigation: Vec<String>,
    pub licence: Licence,
}

impl ZolaResource for Settings {
    fn id(&self) -> (id: &str)
        ensures
            id@ == self.id@,
    {
        self.id.as_str()
    }

    fn path(&self) -> (path: String)
        ensures
            path@ == "settings.toml"@,
    {
        string_of(&chars_of("settings.toml"))
    }

    fn resource_type(&self) -> (kind: Option<&ResourceType>)
        ensures
            kind matches Some(k) && k is Settings,
    {
        Some(&ResourceType::Settings)
    }
}

} // verus!
