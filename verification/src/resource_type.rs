//! The kinds of resource, and the hint by which a source file declares
//! its kind in its first lines.

use crate::text::{chars_of, has_at, is_space, is_space_char, occurs_at, push_str, string_of, subrange};
use vstd::prelude::*;

verus! {

/// The main kinds of resource.
#[derive(Clone, Debug, PartialEq)]
pub enum ResourceType {
    Bulletin,
    BulletinStash,
    Entrance,
    Note,
    Person,
    Project,
    Section,
    Settings,
    Sketch,
    Tool,
    /// A kind that the library does not know, with its name.
    Unknown(String),
}

/// A kind of resource as plain values.
pub enum ResourceTypeView {
    Bulletin,
    BulletinStash,
    Entrance,
    Note,
    Person,
    Project,
    Section,
    Settings,
    Sketch,
    Tool,
    Unknown(Seq<char>),
}

impl View for ResourceType {
    type V = ResourceTypeView;

    open spec fn view(&self) -> ResourceTypeView {
        match *self {
            ResourceType::Bulletin => ResourceTypeView::Bulletin,
            ResourceType::BulletinStash => ResourceTypeView::BulletinStash,
            ResourceType::Entrance => ResourceTypeView::Entrance,
            ResourceType::Note => ResourceTypeView::Note,
            ResourceType::Person => ResourceTypeView::Person,
            ResourceType::Project => ResourceTypeView::Project,
            ResourceType::Section => ResourceTypeView::Section,
            ResourceType::Settings => ResourceTypeView::Settings,
            ResourceType::Sketch => ResourceTypeView::Sketch,
            ResourceType::Tool => ResourceTypeView::Tool,
            ResourceType::Unknown(name) => ResourceTypeView::Unknown(name@),
        }
    }
}

/// No hint stands at the head of the text.
#[derive(Clone, Copy, Debug, PartialEq, Eq, Structural)]
pub struct HintNotFound;

impl HintNotFound {
    /// What the error says of itself.
    pub fn message(&self) -> (text: String)
        ensures
            text@ == "hint not found"@,
    {
        "hint not found".to_owned()
    }
}

/// The name of a kind, as hints spell it.
pub open spec fn kind_name(kind: ResourceTypeView) -> Seq<char> {
    match kind {
        ResourceTypeView::Bulletin => "bulletin"@,
        ResourceTypeView::BulletinStash => "bulletin_stash"@,
        ResourceTypeView::Entrance => "entrance"@,
        ResourceTypeView::Note => "note"@,
        ResourceTypeView::Person => "person"@,
        ResourceTypeView::Project => "project"@,
        ResourceTypeView::Section => "section"@,
        ResourceTypeView::Settings => "settings"@,
        ResourceTypeView::Sketch => "sketch"@,
        ResourceTypeView::Tool => "tool"@,
        ResourceTypeView::Unknown(_) => "unknown"@,
    }
}

/// The kind that a name stands for.
pub open spec fn named_type(name: Seq<char>) -> ResourceTypeView {
    if name == "bulletin"@ {
        ResourceTypeView::Bulletin
    } else if name == "bulletin_stash"@ {
        ResourceTypeView::BulletinStash
    } else if name == "entrance"@ {
        ResourceTypeView::Entrance
    } else if name == "note"@ {
        ResourceTypeView::Note
    } else if name == "person"@ {
        ResourceTypeView::Person
    } else if name == "project"@ {
        ResourceTypeView::Project
    } else if name == "section"@ {
        ResourceTypeView::Section
    } else if name == "settings"@ {
        ResourceTypeView::Settings
    } else if name == "sketch"@ {
        ResourceTypeView::Sketch
    } else if name == "tool"@ {
        ResourceTypeView::Tool
    } else {
        ResourceTypeView::Unknown(name)
    }
}

/// The kinds whose sources are tables of keys and values; the others
/// open with a preamble.
pub open spec fn is_tabular(kind: ResourceTypeView) -> bool {
    ||| kind is Bulletin
    ||| kind is BulletinStash
    ||| kind is Person
    ||| kind is Settings
    ||| kind is Sketch
}

/// The hint that declares a known kind.
pub open spec fn hint_of(kind: ResourceTypeView) -> Seq<char> {
    if is_tabular(kind) {
        "type = \""@ + kind_name(kind) + "\"\n"@
    } else {
        "---\ntype: "@ + kind_name(kind) + "\n"@
    }
}

/// The index behind the run of white space that begins at `from`.
pub open spec fn space_run(s: Seq<char>, from: int) -> int
    decreases s.len() - from,
{
    if 0 <= from < s.len() && is_space(s[from]) {
        space_run(s, from + 1)
    } else {
        from
    }
}

/// The index behind the run of other characters that begins at `from`.
pub open spec fn word_run(s: Seq<char>, from: int) -> int
    decreases s.len() - from,
{
    if 0 <= from < s.len() && !is_space(s[from]) {
        word_run(s, from + 1)
    } else {
        from
    }
}

/// A line break stands in `s` at or after `from` and before `to`.
pub open spec fn breaks_between(s: Seq<char>, from: int, to: int) -> bool {
    exists|k: int| from <= k < to && 0 <= k < s.len() && s[k] == '\n'
}

/// The name in a preamble hint: after white space, a delimiter, white
/// space with a line break in it, `type:`, white space, the name, and
/// white space with a line break in it.
pub open spec fn preamble_hint(s: Seq<char>) -> Option<Seq<char>> {
    let open = space_run(s, 0);
    let gap = open + "---"@.len();
    let key = space_run(s, gap);
    let value = space_run(s, key + "type:"@.len());
    let end = word_run(s, value);
    if occurs_at(s, "---"@, open) && breaks_between(s, gap, key) && occurs_at(s, "type:"@, key)
        && end > value && breaks_between(s, end, space_run(s, end)) {
        Some(s.subrange(value, end))
    } else {
        None
    }
}

/// The name in a table hint: after white space, `type`, `=` with white
/// space round it, the name in double quotes, and white space with a
/// line break in it.
pub open spec fn table_hint(s: Seq<char>) -> Option<Seq<char>> {
    let key = space_run(s, 0);
    let sign = space_run(s, key + "type"@.len());
    let quote = space_run(s, sign + 1);
    let value = quote + 1;
    let end = word_run(s, value);
    if occurs_at(s, "type"@, key) && occurs_at(s, "="@, sign) && occurs_at(s, "\""@, quote) && end
        > value + 1 && s[end - 1] == '"' && breaks_between(s, end, space_run(s, end)) {
        Some(s.subrange(value, end - 1))
    } else {
        None
    }
}

/// The kind that the head of `s` declares, if it declares one.
pub open spec fn hinted(s: Seq<char>) -> Option<ResourceTypeView> {
    match preamble_hint(s) {
        Some(name) => Some(named_type(name)),
        None => match table_hint(s) {
            Some(name) => Some(named_type(name)),
            None => None,
        },
    }
}

/// The index behind the run of white space that begins at `from`.
fn skip_spaces(s: &Vec<char>, from: usize) -> (next: usize)
    ensures
        next == space_run(s@, from as int),
        from <= next,
        from <= s@.len() ==> next <= s@.len(),
{
    let mut i: usize = from;
    while i < s.len() && is_space_char(s[i])
        invariant
            from <= i,
            from <= s@.len() ==> i <= s@.len(),
            space_run(s@, from as int) == space_run(s@, i as int),
        decreases s.len() - i,
    {
        i += 1;
    }
    i
}

/// The index behind the run of other characters that begins at `from`.
fn skip_word(s: &Vec<char>, from: usize) -> (next: usize)
    ensures
        next == word_run(s@, from as int),
        from <= next,
        from <= s@.len() ==> next <= s@.len(),
{
    let mut i: usize = from;
    while i < s.len() && !is_space_char(s[i])
        invariant
            from <= i,
            from <= s@.len() ==> i <= s@.len(),
            word_run(s@, from as int) == word_run(s@, i as int),
        decreases s.len() - i,
    {
        i += 1;
    }
    i
}

/// Tells whether a line break stands at or after `from` and before `to`.
fn has_break(s: &Vec<char>, from: usize, to: usize) -> (found: bool)
    ensures
        found == breaks_between(s@, from as int, to as int),
{
    let mut i: usize = from;
    while i < to && i < s.len()
        invariant
            from <= i,
            forall|k: int| from <= k < i && 0 <= k < s@.len() ==> s@[k] != '\n',
        decreases s.len() - i,
    {
        if s[i] == '\n' {
            return true;
        }
        i += 1;
    }
    false
}

/// The name in a preamble hint at the head of `s`.
fn find_preamble_hint(s: &Vec<char>) -> (name: Option<Vec<char>>)
    ensures
        match name {
            Some(n) => preamble_hint(s@) == Some(n@),
            None => preamble_hint(s@) is None,
        },
{
    let delimiter = chars_of("---");
    let label = chars_of("type:");
    let open = skip_spaces(s, 0);
    if !has_at(s, &delimiter, open) {
        return None;
    }
    assert(open + delimiter@.len() <= s.len());
    let gap = open + delimiter.len();
    let key = skip_spaces(s, gap);
    if !has_break(s, gap, key) || !has_at(s, &label, key) {
        return None;
    }
    assert(key + label@.len() <= s.len());
    let value = skip_spaces(s, key + label.len());
    let end = skip_word(s, value);
    if end <= value {
        return None;
    }
    let behind = skip_spaces(s, end);
    if !has_break(s, end, behind) {
        return None;
    }
    Some(subrange(s, value, end))
}

/// The name in a table hint at the head of `s`.
fn find_table_hint(s: &Vec<char>) -> (name: Option<Vec<char>>)
    ensures
        match name {
            Some(n) => table_hint(s@) == Some(n@),
            None => table_hint(s@) is None,
        },
{
    let label = chars_of("type");
    let equals = chars_of("=");
    let mark = chars_of("\"");
    proof {
        reveal_strlit("=");
        reveal_strlit("\"");
    }
    let key = skip_spaces(s, 0);
    if !has_at(s, &label, key) {
        return None;
    }
    assert(key + label@.len() <= s.len());
    let sign = skip_spaces(s, key + label.len());
    if !has_at(s, &equals, sign) {
        return None;
    }
    assert(sign + equals@.len() <= s.len());
    let quote = skip_spaces(s, sign + 1);
    if !has_at(s, &mark, quote) {
        return None;
    }
    assert(quote + mark@.len() <= s.len());
    let value = quote + 1;
    let end = skip_word(s, value);
    if end - value < 2 || s[end - 1] != '"' {
        return None;
    }
    let behind = skip_spaces(s, end);
    if !has_break(s, end, behind) {
        return None;
    }
    Some(subrange(s, value, end - 1))
}

/// Tells whether `name` spells `word`.
fn spells(name: &Vec<char>, word: &str) -> (same: bool)
    ensures
        same == (name@ == word@),
{
    let w = chars_of(word);
    if name.len() != w.len() {
        return false;
    }
    let same = has_at(name, &w, 0);
    assert(name@.subrange(0, name@.len() as int) =~= name@);
    same
}

/// The kind that `name` stands for.
fn type_named(name: &Vec<char>) -> (kind: ResourceType)
    ensures
        kind@ == named_type(name@),
{
    if spells(name, "bulletin") {
        ResourceType::Bulletin
    } else if spells(name, "bulletin_stash") {
        ResourceType::BulletinStash
    } else if spells(name, "entrance") {
        ResourceType::Entrance
    } else if spells(name, "note") {
        ResourceType::Note
    } else if spells(name, "person") {
        ResourceType::Person
    } else if spells(name, "project") {
        ResourceType::Project
    } else if spells(name, "section") {
        ResourceType::Section
    } else if spells(name, "settings") {
        ResourceType::Settings
    } else if spells(name, "sketch") {
        ResourceType::Sketch
    } else if spells(name, "tool") {
        ResourceType::Tool
    } else {
        ResourceType::Unknown(string_of(name))
    }
}

impl ResourceType {
    /// Looks at the head of `text` for the declaration of a kind.
    pub fn from_hint(text: &str) -> (found: Result<ResourceType, HintNotFound>)
        ensures
            match hinted(text@) {
                Some(kind) => found matches Ok(k) && k@ == kind,
                None => found is Err,
            },
    {
        let s = chars_of(text);
        if let Some(name) = find_preamble_hint(&s) {
            return Ok(type_named(&name));
        }
        if let Some(name) = find_table_hint(&s) {
            return Ok(type_named(&name));
        }
        Err(HintNotFound)
    }

    /// The kind that `name` stands for; a name that stands for none of
    /// the known kinds gives `Unknown` with that name.
    pub fn from_str(name: &str) -> (kind: Result<ResourceType, HintNotFound>)
        ensures
            kind matches Ok(k) && k@ == named_type(name@),
    {
        Ok(type_named(&chars_of(name)))
    }

    /// The name of the kind, as hints spell it.
    pub fn to_string(&self) -> (name: String)
        ensures
            name@ == kind_name(self@),
    {
        let name = match self {
            ResourceType::Bulletin => "bulletin",
            ResourceType::BulletinStash => "bulletin_stash",
            ResourceType::Entrance => "entrance",
            ResourceType::Note => "note",
            ResourceType::Person => "person",
            ResourceType::Project => "project",
            ResourceType::Section => "section",
            ResourceType::Settings => "settings",
            ResourceType::Sketch => "sketch",
            ResourceType::Tool => "tool",
            ResourceType::Unknown(_) => "unknown",
        };
        string_of(&chars_of(name))
    }

    /// Tells whether the sources of this kind are tables of keys and
    /// values.
    pub fn is_tabular(&self) -> (tabular: bool)
        ensures
            tabular == is_tabular(self@),
    {
        match self {
            ResourceType::Bulletin | ResourceType::BulletinStash | ResourceType::Person
            | ResourceType::Settings | ResourceType::Sketch => true,
            _ => false,
        }
    }

    /// The hint that declares this kind at the head of a source.
    pub fn to_hint(&self) -> (hint: String)
        requires
            !(self is Unknown),
        ensures
            hint@ == hint_of(self@),
    {
        let mut out: Vec<char> = Vec::new();
        let name = self.to_string();
        if self.is_tabular() {
            push_str(&mut out, "type = \"");
            push_str(&mut out, name.as_str());
            push_str(&mut out, "\"\n");
        } else {
            push_str(&mut out, "---\ntype: ");
            push_str(&mut out, name.as_str());
            push_str(&mut out, "\n");
        }
        assert(out@ =~= hint_of(self@));
        string_of(&out)
    }
}

} // verus!
