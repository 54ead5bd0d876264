//! The source stage: the resources as their files describe them.

use crate::text::{chars_of, optional_text, push_str, same_text, string_of, trim, trim_of};
use vstd::prelude::*;

pub mod asset;
pub mod bulletin_entry;
pub mod bulletin_issue;
pub mod bulletin_stash;
pub mod entrance;
pub mod note;
pub mod person;
pub mod project;
pub mod section;
pub mod settings;
pub mod sketch;
pub mod tool;

pub use asset::{Asset, AssetSet};
pub use bulletin_entry::BulletinEntry;
pub use bulletin_issue::{Bulletin, BulletinSet};
pub use bulletin_stash::BulletinStash;
pub use entrance::Entrance;
pub use note::{Note, NoteSet};
pub use person::{Person, PersonSet, ServiceAccount};
pub use project::{Project, ProjectSet};
pub use section::{Section, SectionSet};
pub use settings::{Settings, SettingsSet};
pub use sketch::{Sketch, SketchSet};
pub use tool::{Tool, ToolSet};

verus! {

/// A file with this extension is an asset: it has an extension, and
/// that is neither the one of documents nor the one of tables.
pub open spec fn asset_extension(extension: Option<&str>) -> bool {
    match extension {
        Some(e) => e@ != "md"@ && e@ != "toml"@,
        None => false,
    }
}

/// Tells whether a file with this extension is an asset, to be carried
/// through as it is; the others are read as text.
pub fn is_asset(extension: Option<&str>) -> (asset: bool)
    ensures
        asset == asset_extension(extension),
{
    match extension {
        Some(e) => !same_text(e, "md") && !same_text(e, "toml"),
        None => false,
    }
}

/// A file of this name is hidden: its name is text and begins with a
/// dot.
pub open spec fn hidden_name(name: Option<&str>) -> bool {
    match name {
        Some(n) => n@.len() > 0 && n@[0] == '.',
        None => false,
    }
}

/// Tells whether a file of this name is hidden, and so passed over.
pub fn is_hidden(name: Option<&str>) -> (hidden: bool)
    ensures
        hidden == hidden_name(name),
{
    match name {
        Some(n) => {
            let chars = chars_of(n);
            chars.len() > 0 && chars[0] == '.'
        },
        None => false,
    }
}

/// The body that the text behind a preamble holds: the trimmed text,
/// or none where that is empty.
pub open spec fn optional_body(text: Seq<char>) -> Option<Seq<char>> {
    if trim(text).len() == 0 {
        None
    } else {
        Some(trim(text))
    }
}

/// The body that the text behind a preamble holds.
pub fn body_of(text: &str) -> (body: Option<String>)
    ensures
        optional_text(body) == optional_body(text@),
{
    let trimmed = trim_of(&chars_of(text));
    if trimmed.len() == 0 {
        None
    } else {
        Some(string_of(&trimmed))
    }
}

/// A source text whose preamble `yaml` stands between two delimiter
/// lines, with the body behind it where there is one.
pub open spec fn framed(yaml: Seq<char>, body: Option<Seq<char>>) -> Seq<char> {
    match body {
        Some(text) => "---\n"@ + yaml + "---\n"@ + text,
        None => "---\n"@ + yaml + "---\n"@,
    }
}

/// The source text whose preamble `yaml` stands between two delimiter
/// lines, with `body` behind it.
pub fn frame(yaml: &str, body: &Option<String>) -> (text: String)
    ensures
        text@ == framed(yaml@, optional_text(*body)),
{
    let mut out: Vec<char> = Vec::new();
    push_str(&mut out, "---\n");
    push_str(&mut out, yaml);
    push_str(&mut out, "---\n");
    if let Some(text) = body {
        push_str(&mut out, text.as_str());
    }
    assert(out@ =~= framed(yaml@, optional_text(*body)));
    string_of(&out)
}

/// A source text whose preamble `yaml` brings its opening delimiter
/// line along: a delimiter line closes it, and the body follows where
/// there is one.
pub open spec fn closed(yaml: Seq<char>, body: Option<Seq<char>>) -> Seq<char> {
    match body {
        Some(text) => yaml + "---\n"@ + text,
        None => yaml + "---\n"@,
    }
}

/// The source text whose preamble `yaml` brings its opening delimiter
/// line along, with `body` behind the closing one.
pub fn close(yaml: &str, body: &Option<String>) -> (text: String)
    ensures
        text@ == closed(yaml@, optional_text(*body)),
{
    let mut out: Vec<char> = Vec::new();
    push_str(&mut out, yaml);
    push_str(&mut out, "---\n");
    if let Some(text) = body {
        push_str(&mut out, text.as_str());
    }
    assert(out@ =~= closed(yaml@, optional_text(*body)));
    string_of(&out)
}

} // verus!
