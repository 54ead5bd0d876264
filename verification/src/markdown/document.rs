//! Splitting a raw document into preamble, title, summary and body.

use crate::text::{
    absent, after_break, chars_of, find_line, first_line, has_at, has_line_at, is_space,
    lemma_absent_in_part, lemma_absent_in_trim, lemma_first_line, lemma_line_end,
    lemma_occurs_in_part, lemma_trim, lemma_trim_start, lemma_trim_twice, line_at, line_end,
    line_end_of, occurs_at, optional_text, push_str, skip_break, string_of, subrange, trim,
    trim_of, trim_start, trim_start_of,
};
use vstd::prelude::*;

verus! {

/// Why a raw document could not be split.
#[derive(Clone, Copy, Debug, PartialEq, Eq, Structural)]
pub enum DecomposeError {
    /// The text does not open with a delimiter line that a second
    /// delimiter line follows.
    MalformedPreamble,
    /// No level-one heading follows the preamble.
    TitleNotFound,
}

impl DecomposeError {
    /// A short description of the error.
    pub fn message(&self) -> (text: String)
        ensures
            text@ == match *self {
                DecomposeError::MalformedPreamble => "malformed preamble"@,
                DecomposeError::TitleNotFound => "title not found"@,
            },
    {
        match self {
            DecomposeError::MalformedPreamble => string_of(&chars_of("malformed preamble")),
            DecomposeError::TitleNotFound => string_of(&chars_of("title not found")),
        }
    }
}

/// The line that opens and closes the preamble.
pub open spec fn delimiter() -> Seq<char> {
    "---"@
}

/// What opens a title line.
pub open spec fn title_mark() -> Seq<char> {
    "# "@
}

/// The line that parts the summary from the body.
pub open spec fn body_marker() -> Seq<char> {
    "<!-- body -->"@
}

/// The preamble and what follows it: leading white space is skipped, a
/// delimiter line opens the preamble, and the first delimiter line after
/// it closes it. The preamble is everything between the two delimiters;
/// the rest begins behind the closing delimiter's line break.
pub open spec fn split_preamble(s: Seq<char>) -> Option<(Seq<char>, Seq<char>)> {
    let t = trim_start(s);
    let d = delimiter();
    if !line_at(t, d, 0) {
        None
    } else {
        match first_line(t, d, d.len() as int) {
            None => None,
            Some(j) => Some(
                (
                    t.subrange(d.len() as int, j),
                    t.subrange(after_break(t, j + d.len()), t.len() as int),
                ),
            ),
        }
    }
}

/// A title line begins at index `i` of `s`: a line that opens with the
/// title mark and holds more than white space behind it.
pub open spec fn heading_at(s: Seq<char>, i: int) -> bool {
    &&& occurs_at(s, title_mark(), i)
    &&& (i == 0 || s[i - 1] == '\n')
    &&& trim(heading_text(s, i)).len() > 0
}

/// What stands behind the title mark at `i`, up to the end of the line.
pub open spec fn heading_text(s: Seq<char>, i: int) -> Seq<char> {
    let from = i + title_mark().len();
    s.subrange(from, line_end(s, from))
}

/// The index of the first title line of `s` at or after `from`.
pub open spec fn first_heading(s: Seq<char>, from: int) -> Option<int>
    decreases s.len() - from,
{
    if from < 0 || from >= s.len() {
        None
    } else if heading_at(s, from) {
        Some(from)
    } else {
        first_heading(s, from + 1)
    }
}

/// The title of the first title line, and the trimmed text behind that
/// line.
pub open spec fn split_title(s: Seq<char>) -> Option<(Seq<char>, Seq<char>)> {
    match first_heading(s, 0) {
        None => None,
        Some(i) => Some(
            (
                trim(heading_text(s, i)),
                trim(s.subrange(line_end(s, i + title_mark().len()), s.len() as int)),
            ),
        ),
    }
}

/// The summary and the body: where a marker line exists, the trimmed
/// text on each side of the first one; else no summary and the trimmed
/// text as the body.
pub open spec fn split_summary(s: Seq<char>) -> (Option<Seq<char>>, Seq<char>) {
    match first_line(s, body_marker(), 0) {
        Some(j) => (
            Some(trim(s.subrange(0, j))),
            trim(s.subrange(j + body_marker().len(), s.len() as int)),
        ),
        None => (None, trim(s)),
    }
}

/// The text behind the preamble, where the document has one.
pub open spec fn behind_preamble(s: Seq<char>) -> Seq<char> {
    match split_preamble(s) {
        Some((_, rest)) => rest,
        None => Seq::empty(),
    }
}

/// The trimmed text behind the title line, where the text has one.
pub open spec fn behind_title(s: Seq<char>) -> Seq<char> {
    match split_title(s) {
        Some((_, rest)) => rest,
        None => Seq::empty(),
    }
}

/// The title stands in the text at index `k`, behind a title mark at
/// index `j`, with nothing but white space between them.
pub open spec fn title_stands(s: Seq<char>, title: Seq<char>, j: int, k: int) -> bool {
    &&& occurs_at(s, title_mark(), j)
    &&& j + title_mark().len() <= k
    &&& occurs_at(s, title, k)
    &&& forall|m: int| j + title_mark().len() <= m < k ==> is_space(#[trigger] s[m])
}

/// The title of a document stands in the document: the text holds a
/// title mark, white space or nothing behind it, and then the title.
pub proof fn lemma_title_in_document(s: Seq<char>)
    requires
        decompose(s) is Ok,
    ensures
        exists|j: int, k: int| title_stands(s, decompose(s)->Ok_0.title, j, k),
{
    let title = decompose(s)->Ok_0.title;
    let mark = title_mark();
    let d = delimiter();
    let t = trim_start(s);
    lemma_trim_start(s);
    let lead = s.len() - t.len();
    let close = first_line(t, d, d.len() as int)->0;
    lemma_first_line(t, d, d.len() as int);
    let cut = after_break(t, close + d.len());
    let rest = behind_preamble(s);
    assert(rest == t.subrange(cut, t.len() as int));
    let i = first_heading(rest, 0)->0;
    lemma_first_heading(rest, 0);
    let from = i + mark.len();
    let end = line_end(rest, from);
    lemma_line_end(rest, from);
    let line = rest.subrange(from, end);
    lemma_trim(line);
    lemma_trim_start(line);
    let pad = line.len() - trim_start(line).len();
    assert(title == trim(line));
    assert(occurs_at(line, title, pad));
    lemma_occurs_in_part(rest, from, end, title, pad);
    lemma_occurs_in_part(t, cut, t.len() as int, title, from + pad);
    lemma_occurs_in_part(s, lead, s.len() as int, title, cut + from + pad);
    lemma_occurs_in_part(t, cut, t.len() as int, mark, i);
    lemma_occurs_in_part(s, lead, s.len() as int, mark, cut + i);
    let j = lead + cut + i;
    let k = lead + cut + from + pad;
    assert forall|m: int| j + mark.len() <= m < k implies is_space(#[trigger] s[m]) by {
        let at = m - (lead + cut + from);
        assert(0 <= at < pad);
        assert(is_space(line[at]));
        assert(line[at] == rest[from + at]);
        assert(rest[from + at] == t[cut + from + at]);
        assert(t[cut + from + at] == s[lead + cut + from + at]);
    }
    assert(title_stands(s, title, j, k));
}

/// The first title line is a title line, and none stands before it;
/// where there is none, no title line stands at or after `from`.
pub proof fn lemma_first_heading(s: Seq<char>, from: int)
    requires
        0 <= from,
    ensures
        match first_heading(s, from) {
            Some(i) => from <= i < s.len() && heading_at(s, i) && forall|k: int|
                from <= k < i ==> !heading_at(s, k),
            None => forall|k: int| from <= k ==> !heading_at(s, k),
        },
    decreases s.len() - from,
{
    if from < s.len() && !heading_at(s, from) {
        lemma_first_heading(s, from + 1);
    }
}

/// A document without a title line behind its preamble has no parts: it
/// fails with `TitleNotFound`.
pub proof fn lemma_without_heading(s: Seq<char>)
    requires
        split_preamble(s) is Some,
        forall|i: int| !heading_at(behind_preamble(s), i),
    ensures
        decompose(s) == Err::<MarkdownView, DecomposeError>(DecomposeError::TitleNotFound),
{
    lemma_first_heading(behind_preamble(s), 0);
}

/// A document whose text behind the preamble holds the title mark
/// nowhere fails with `TitleNotFound`.
pub proof fn lemma_without_title_mark(s: Seq<char>)
    requires
        split_preamble(s) is Some,
        absent(behind_preamble(s), title_mark()),
    ensures
        decompose(s) == Err::<MarkdownView, DecomposeError>(DecomposeError::TitleNotFound),
{
    lemma_without_heading(s);
}

/// A document that holds the body marker nowhere has no summary, and
/// its body is all the trimmed text behind the title line.
pub proof fn lemma_without_marker(s: Seq<char>)
    requires
        absent(s, body_marker()),
        decompose(s) is Ok,
    ensures
        decompose(s)->Ok_0.summary is None,
        decompose(s)->Ok_0.body == behind_title(behind_preamble(s)),
{
    let marker = body_marker();
    let t = trim_start(s);
    let d = delimiter();
    lemma_absent_in_trim(s, marker);
    let j = first_line(t, d, d.len() as int)->0;
    lemma_first_line(t, d, d.len() as int);
    let rest = behind_preamble(s);
    lemma_absent_in_part(t, after_break(t, j + d.len()), t.len() as int, marker);
    let i = first_heading(rest, 0)->0;
    lemma_first_heading(rest, 0);
    let end = line_end(rest, i + title_mark().len());
    lemma_line_end(rest, i + title_mark().len());
    let tail = rest.subrange(end, rest.len() as int);
    lemma_absent_in_part(rest, end, rest.len() as int, marker);
    lemma_absent_in_trim(tail, marker);
    let body = trim(tail);
    lemma_first_line(body, marker, 0);
    assert(first_line(body, marker, 0) is None) by {
        if first_line(body, marker, 0) is Some {
            assert(occurs_at(body, marker, first_line(body, marker, 0)->0));
        }
    }
    lemma_trim_twice(tail);
}

/// The parts of a document are trimmed: neither the title nor the body
/// nor the summary begins or ends with white space, and the title is
/// not empty.
pub proof fn lemma_parts_are_trimmed(s: Seq<char>)
    requires
        decompose(s) is Ok,
    ensures
        decompose(s)->Ok_0.title.len() > 0,
        trim(decompose(s)->Ok_0.title) == decompose(s)->Ok_0.title,
        trim(decompose(s)->Ok_0.body) == decompose(s)->Ok_0.body,
        decompose(s)->Ok_0.summary matches Some(summary) ==> trim(summary) == summary,
{
    let rest = behind_preamble(s);
    lemma_first_heading(rest, 0);
    let i = first_heading(rest, 0)->0;
    lemma_trim_twice(heading_text(rest, i));
    let tail = behind_title(rest);
    match first_line(tail, body_marker(), 0) {
        Some(j) => {
            lemma_trim_twice(tail.subrange(0, j));
            lemma_trim_twice(tail.subrange(j + body_marker().len(), tail.len() as int));
        },
        None => {
            lemma_trim_twice(tail);
        },
    }
}

/// A decomposed document as plain sequences.
pub struct MarkdownView {
    pub frontmatter: Seq<char>,
    pub title: Seq<char>,
    pub summary: Option<Seq<char>>,
    pub body: Seq<char>,
}

/// The parts of the raw document `s`, or the reason why it has none.
pub open spec fn decompose(s: Seq<char>) -> Result<MarkdownView, DecomposeError> {
    match split_preamble(s) {
        None => Err(DecomposeError::MalformedPreamble),
        Some((frontmatter, rest)) => match split_title(rest) {
            None => Err(DecomposeError::TitleNotFound),
            Some((title, rest)) => Ok(
                MarkdownView {
                    frontmatter,
                    title,
                    summary: split_summary(rest).0,
                    body: split_summary(rest).1,
                },
            ),
        },
    }
}

/// A document split into its parts: the preamble between the delimiter
/// lines, the title, the summary where a marker line closes one, and the
/// body.
#[derive(Debug, Clone)]
pub struct Markdown {
    pub frontmatter: String,
    pub title: String,
    pub summary: Option<String>,
    pub body: String,
}

impl View for Markdown {
    type V = MarkdownView;

    open spec fn view(&self) -> MarkdownView {
        MarkdownView {
            frontmatter: self.frontmatter@,
            title: self.title@,
            summary: optional_text(self.summary),
            body: self.body@,
        }
    }
}

impl Markdown {
    /// A decomposed document has a title.
    pub open spec fn wf(&self) -> bool {
        self.title@.len() > 0
    }

    /// Splits `input` into preamble, title, summary and body.
    pub fn from_str(input: &str) -> (parsed: Result<Markdown, DecomposeError>)
        ensures
            match decompose(input@) {
                Ok(parts) => parsed matches Ok(doc) && doc@ == parts && doc.wf(),
                Err(e) => parsed matches Err(f) && f == e,
            },
    {
        let (frontmatter, rest) = match take_frontmatter(input) {
            Ok(parts) => parts,
            Err(e) => {
                return Err(e);
            },
        };
        let (title, rest) = match take_title(rest.as_str()) {
            Ok(parts) => parts,
            Err(e) => {
                return Err(e);
            },
        };
        let (summary, body) = take_summary(rest.as_str());
        Ok(Markdown { frontmatter, title, summary, body })
    }

    /// The preamble, as it stands between the delimiters.
    pub fn frontmatter(&self) -> (text: &str)
        ensures
            text@ == self@.frontmatter,
    {
        self.frontmatter.as_str()
    }

    /// The body.
    pub fn body(&self) -> (text: &str)
        ensures
            text@ == self@.body,
    {
        self.body.as_str()
    }

    /// The title.
    pub fn title(&self) -> (text: &str)
        ensures
            text@ == self@.title,
    {
        self.title.as_str()
    }

    /// The summary, where the document has one.
    pub fn summary(&self) -> (text: Option<&String>)
        ensures
            match text {
                Some(s) => self@.summary == Some(s@),
                None => self@.summary is None,
            },
    {
        self.summary.as_ref()
    }

    /// The parts in order: preamble, title, summary, body.
    pub fn to_tuple(self) -> (parts: (String, String, Option<String>, String))
        ensures
            parts.0 == self.frontmatter,
            parts.1 == self.title,
            parts.2 == self.summary,
            parts.3 == self.body,
    {
        (self.frontmatter, self.title, self.summary, self.body)
    }
}

/// Parts the preamble from what follows it.
pub fn take_frontmatter(blob: &str) -> (parts: Result<(String, String), DecomposeError>)
    ensures
        match split_preamble(blob@) {
            Some((frontmatter, rest)) => parts matches Ok((f, r)) && f@ == frontmatter && r@
                == rest,
            None => parts matches Err(e) && e == DecomposeError::MalformedPreamble,
        },
{
    let source = chars_of(blob);
    let t = trim_start_of(&source);
    let d = chars_of("---");
    if !has_line_at(&t, &d, 0) {
        return Err(DecomposeError::MalformedPreamble);
    }
    match find_line(&t, &d, d.len()) {
        None => Err(DecomposeError::MalformedPreamble),
        Some(j) => {
            let frontmatter = subrange(&t, d.len(), j);
            let next = skip_break(&t, j + d.len());
            let rest = subrange(&t, next, t.len());
            Ok((string_of(&frontmatter), string_of(&rest)))
        },
    }
}

/// Tells whether a title line begins at index `i` of `s`.
fn is_heading_at(s: &Vec<char>, mark: &Vec<char>, i: usize) -> (found: bool)
    requires
        mark@ == title_mark(),
    ensures
        found == heading_at(s@, i as int),
{
    if !has_at(s, mark, i) {
        return false;
    }
    if i > 0 && s[i - 1] != '\n' {
        return false;
    }
    assert(i + mark@.len() <= s.len());
    let from = i + mark.len();
    let end = line_end_of(s, from);
    let text = subrange(s, from, end);
    let title = trim_of(&text);
    title.len() > 0
}

/// The index of the first title line of `s`.
fn find_heading(s: &Vec<char>, mark: &Vec<char>) -> (found: Option<usize>)
    requires
        mark@ == title_mark(),
    ensures
        match found {
            Some(i) => first_heading(s@, 0) == Some(i as int) && heading_at(s@, i as int),
            None => first_heading(s@, 0) is None,
        },
{
    let mut i: usize = 0;
    while i < s.len()
        invariant
            mark@ == title_mark(),
            first_heading(s@, 0) == first_heading(s@, i as int),
        decreases s.len() - i,
    {
        if is_heading_at(s, mark, i) {
            return Some(i);
        }
        i += 1;
    }
    None
}

/// Parts the title of the first title line from the text behind it.
pub fn take_title(input: &str) -> (parts: Result<(String, String), DecomposeError>)
    ensures
        match split_title(input@) {
            Some((title, rest)) => parts matches Ok((t, r)) && t@ == title && r@ == rest
                && title.len() > 0,
            None => parts matches Err(e) && e == DecomposeError::TitleNotFound,
        },
{
    let s = chars_of(input);
    let mark = chars_of("# ");
    match find_heading(&s, &mark) {
        None => Err(DecomposeError::TitleNotFound),
        Some(i) => {
            assert(i + mark@.len() <= s.len());
            let from = i + mark.len();
            let end = line_end_of(&s, from);
            let title = trim_of(&subrange(&s, from, end));
            let rest = trim_of(&subrange(&s, end, s.len()));
            Ok((string_of(&title), string_of(&rest)))
        },
    }
}

/// Parts the summary from the body at the first marker line.
pub fn take_summary(input: &str) -> (parts: (Option<String>, String))
    ensures
        optional_text(parts.0) == split_summary(input@).0,
        parts.1@ == split_summary(input@).1,
{
    let s = chars_of(input);
    let marker = chars_of("<!-- body -->");
    match find_line(&s, &marker, 0) {
        Some(j) => {
            let summary = trim_of(&subrange(&s, 0, j));
            let body = trim_of(&subrange(&s, j + marker.len(), s.len()));
            (Some(string_of(&summary)), string_of(&body))
        },
        None => {
            let body = trim_of(&s);
            (None, string_of(&body))
        },
    }
}

/// The source text of a document with a summary: the preamble `head`,
/// which brings its opening delimiter line along, the closing delimiter
/// line, the title line, and the summary and the body with the marker
/// line between them.
pub open spec fn composed(
    head: Seq<char>,
    title: Seq<char>,
    summary: Seq<char>,
    body: Seq<char>,
) -> Seq<char> {
    head + "---\n# "@ + title + "\n\n"@ + summary + "\n\n<!-- body -->\n\n"@ + body
}

/// The source text of a document with the given parts, where `head` is
/// the preamble with its opening delimiter line.
pub fn compose(head: &str, title: &str, summary: &str, body: &str) -> (text: String)
    ensures
        text@ == composed(head@, title@, summary@, body@),
{
    let mut out: Vec<char> = Vec::new();
    push_str(&mut out, head);
    push_str(&mut out, "---\n# ");
    push_str(&mut out, title);
    push_str(&mut out, "\n\n");
    push_str(&mut out, summary);
    push_str(&mut out, "\n\n<!-- body -->\n\n");
    push_str(&mut out, body);
    assert(out@ =~= composed(head@, title@, summary@, body@));
    string_of(&out)
}

} // verus!
