//! The site stage: the pages that the site generator reads.

use crate::resource_type::ResourceType;
use crate::text::{push_str, same_text, string_of};
use vstd::prelude::*;

pub mod author;
pub mod bulletin;
pub mod bulletin_year;
pub mod entrance;
pub mod note;
pub mod project;
pub mod section;
pub mod settings;
pub mod sketch;

verus! {

/// A resource of the site stage: something that becomes a file.
pub trait ZolaResource {
    /// What tells the resource from the others of its kind.
    fn id(&self) -> &str;

    /// The path of its file, from the directory of its section.
    fn path(&self) -> String;

    /// The kind of resource.
    fn resource_type(&self) -> Option<&ResourceType>;
}

/// A page: the metadata between two lines of three plus signs, and the
/// body behind them where the page has one.
pub open spec fn page_text(metadata: Seq<char>, body: Option<Seq<char>>) -> Seq<char> {
    match body {
        Some(text) => "+++\n"@ + metadata + "+++\n"@ + text,
        None => "+++\n"@ + metadata + "+++\n"@,
    }
}

/// The characters of an optional text.
pub open spec fn body_view(body: Option<&str>) -> Option<Seq<char>> {
    match body {
        Some(text) => Some(text@),
        None => None,
    }
}

/// The text of a page with the given metadata and body.
pub fn page(metadata: &str, body: Option<&str>) -> (text: String)
    ensures
        text@ == page_text(metadata@, body_view(body)),
{
    let mut out: Vec<char> = Vec::new();
    push_str(&mut out, "+++\n");
    push_str(&mut out, metadata);
    push_str(&mut out, "+++\n");
    if let Some(text) = body {
        push_str(&mut out, text);
    }
    assert(out@ =~= page_text(metadata@, body_view(body)));
    string_of(&out)
}

/// The path of the page `id`: its name with the extension of pages.
pub fn page_path(id: &str) -> (path: String)
    ensures
        path@ == id@ + ".md"@,
{
    let mut out: Vec<char> = Vec::new();
    push_str(&mut out, id);
    push_str(&mut out, ".md");
    string_of(&out)
}

/// The path of the section `id`: its name as a directory.
pub fn section_path(id: &str) -> (path: String)
    ensures
        path@ == id@ + "/"@,
{
    let mut out: Vec<char> = Vec::new();
    push_str(&mut out, id);
    push_str(&mut out, "/");
    string_of(&out)
}

/// Where an update points to: the resource in its section, and for a
/// bulletin in the year of its section.
pub open spec fn update_target(section: Seq<char>, year: Seq<char>, id: Seq<char>) -> Seq<char> {
    if section == "bulletins"@ {
        "/"@ + section + "/"@ + year + "/"@ + id
    } else {
        "/"@ + section + "/"@ + id
    }
}

/// The path of the update `id` of `section`, dated in `year`.
pub fn update_path(section: &str, year: &str, id: &str) -> (path: String)
    ensures
        path@ == update_target(section@, year@, id@),
{
    let mut out: Vec<char> = Vec::new();
    push_str(&mut out, "/");
    push_str(&mut out, section);
    push_str(&mut out, "/");
    if same_text(section, "bulletins") {
        push_str(&mut out, year);
        push_str(&mut out, "/");
    }
    push_str(&mut out, id);
    assert(out@ =~= update_target(section@, year@, id@));
    string_of(&out)
}

/// What the page of a year of bulletins says of itself.
pub fn year_description(year: &str) -> (description: String)
    ensures
        description@ == "Issues from "@ + year@,
{
    let mut out: Vec<char> = Vec::new();
    push_str(&mut out, "Issues from ");
    push_str(&mut out, year);
    string_of(&out)
}

/// The first day of `year`, as a date is written.
pub fn year_start(year: &str) -> (date: String)
    ensures
        date@ == year@ + "-01-01"@,
{
    let mut out: Vec<char> = Vec::new();
    push_str(&mut out, year);
    push_str(&mut out, "-01-01");
    string_of(&out)
}

} // verus!
