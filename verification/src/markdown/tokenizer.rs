//! The tokenizer: `pulldown_cmark` turns a markup body into structural
//! events. What the parser yields is taken on trust and given a name;
//! everything behind it works on the library's own events.

use crate::markdown::event::{
    ColumnAlignment, Construct, ConstructView, MarkupEvent, MarkupEventView, event_views,
};
use pulldown_cmark::{CodeBlockKind, Tag};
use vstd::prelude::*;

verus! {

/// `pulldown_cmark::Tag`: a construct as the parser names it; nothing
/// is known of what it holds.
#[verifier::external_type_specification]
#[verifier::external_body]
pub struct ExParserTag<'a>(pulldown_cmark::Tag<'a>);

/// `pulldown_cmark::Event`: an event as the parser yields it; nothing
/// is known of what it holds.
#[verifier::external_type_specification]
#[verifier::external_body]
pub struct ExParserEvent<'a>(pulldown_cmark::Event<'a>);

/// `pulldown_cmark::Alignment`: the alignment of a column as the parser
/// names it; nothing is known of what it holds.
#[verifier::external_type_specification]
#[verifier::external_body]
pub struct ExParserAlignment(pulldown_cmark::Alignment);

/// The parser's flag for tables.
pub const ENABLE_TABLES: u32 = 2;

/// The parser's flag for footnotes.
pub const ENABLE_FOOTNOTES: u32 = 4;

/// The parser's flag for strikethrough.
pub const ENABLE_STRIKETHROUGH: u32 = 8;

/// The parser's flag for task lists.
pub const ENABLE_TASKLISTS: u32 = 16;

/// The parser's flag for smart punctuation.
pub const ENABLE_SMART_PUNCTUATION: u32 = 32;

/// Every flag of the parser.
pub const ENABLE_ALL: u32 = ENABLE_TABLES | ENABLE_FOOTNOTES | ENABLE_STRIKETHROUGH | ENABLE_TASKLISTS
    | ENABLE_SMART_PUNCTUATION;

/// The events that the parser yields for `text` under the flags
/// `options`, in order.
pub uninterp spec fn markdown_events(text: Seq<char>, options: u32) -> Seq<MarkupEventView>;

/// An event of the parser whose construct is still the parser's own.
enum Parsed<'a> {
    Start(Tag<'a>),
    End(Tag<'a>),
    Text(String),
    InlineCode(String),
    RawMarkup(String),
    FootnoteReference(String),
    SoftBreak,
    HardBreak,
    Rule,
    TaskListMarker(bool),
}

/// Tells the variants of `pulldown_cmark::Event` apart, copying each
/// text. Nothing is claimed of the result.
#[verifier::external_body]
fn parsed_of<'a>(event: pulldown_cmark::Event<'a>) -> Parsed<'a> {
    match event {
        pulldown_cmark::Event::Start(tag) => Parsed::Start(tag),
        pulldown_cmark::Event::End(tag) => Parsed::End(tag),
        pulldown_cmark::Event::Text(text) => Parsed::Text(text.to_string()),
        pulldown_cmark::Event::Code(text) => Parsed::InlineCode(text.to_string()),
        pulldown_cmark::Event::Html(text) => Parsed::RawMarkup(text.to_string()),
        pulldown_cmark::Event::FootnoteReference(label) => Parsed::FootnoteReference(label.to_string()),
        pulldown_cmark::Event::SoftBreak => Parsed::SoftBreak,
        pulldown_cmark::Event::HardBreak => Parsed::HardBreak,
        pulldown_cmark::Event::Rule => Parsed::Rule,
        pulldown_cmark::Event::TaskListMarker(checked) => Parsed::TaskListMarker(checked),
    }
}

/// The block-level variants of `pulldown_cmark::Tag`, tables apart, as
/// constructs; `None` for every other variant. Nothing is claimed of the
/// result.
#[verifier::external_body]
fn block_construct(tag: &Tag<'_>) -> Option<Construct> {
    match tag {
        Tag::Paragraph => Some(Construct::Paragraph),
        Tag::Heading(level) => Some(Construct::Heading(*level)),
        Tag::BlockQuote => Some(Construct::BlockQuote),
        Tag::CodeBlock(CodeBlockKind::Indented) => Some(Construct::CodeBlock(None)),
        Tag::CodeBlock(CodeBlockKind::Fenced(info)) => Some(Construct::CodeBlock(Some(info.to_string()))),
        Tag::List(start) => Some(Construct::List(*start)),
        Tag::Item => Some(Construct::Item),
        Tag::FootnoteDefinition(label) => Some(Construct::FootnoteDefinition(label.to_string())),
        _ => None,
    }
}

/// The table-part and span-level variants of `pulldown_cmark::Tag` as
/// constructs, a link or an image with its destination; `None` for every
/// other variant. Nothing is claimed of the result.
#[verifier::external_body]
fn span_construct(tag: &Tag<'_>) -> Option<Construct> {
    match tag {
        Tag::TableHead => Some(Construct::TableHead),
        Tag::TableRow => Some(Construct::TableRow),
        Tag::TableCell => Some(Construct::TableCell),
        Tag::Emphasis => Some(Construct::Emphasis),
        Tag::Strong => Some(Construct::Strong),
        Tag::Strikethrough => Some(Construct::Strikethrough),
        Tag::Link(_, destination, _) => Some(Construct::Link(destination.to_string())),
        Tag::Image(_, destination, _) => Some(Construct::Image(destination.to_string())),
        _ => None,
    }
}

/// The column alignments of `pulldown_cmark::Tag::Table`; none for every
/// other variant. Nothing is claimed of the result.
#[verifier::external_body]
fn table_columns(tag: &Tag<'_>) -> Vec<pulldown_cmark::Alignment> {
    match tag {
        Tag::Table(columns) => columns.clone(),
        _ => Vec::new(),
    }
}

/// Tells the variants of `pulldown_cmark::Alignment` apart. Nothing is
/// claimed of the result.
#[verifier::external_body]
fn alignment_of(alignment: &pulldown_cmark::Alignment) -> ColumnAlignment {
    match alignment {
        pulldown_cmark::Alignment::None => ColumnAlignment::Unaligned,
        pulldown_cmark::Alignment::Left => ColumnAlignment::Left,
        pulldown_cmark::Alignment::Center => ColumnAlignment::Center,
        pulldown_cmark::Alignment::Right => ColumnAlignment::Right,
    }
}

/// The view of an optional construct.
pub open spec fn optional_construct(construct: Option<Construct>) -> Option<ConstructView> {
    match construct {
        Some(c) => Some(c@),
        None => None,
    }
}

/// The construct that the parts of a tag stand for: the block-level
/// one where the tag has one, else the span-level one, else a table
/// with the columns of the tag.
pub open spec fn chosen_construct(
    block: Option<ConstructView>,
    span: Option<ConstructView>,
    columns: Seq<ColumnAlignment>,
) -> ConstructView {
    match block {
        Some(construct) => construct,
        None => match span {
            Some(construct) => construct,
            None => ConstructView::Table(columns),
        },
    }
}

/// The construct that the parts of a tag stand for.
pub fn choose_construct(
    block: Option<Construct>,
    span: Option<Construct>,
    columns: Vec<ColumnAlignment>,
) -> (construct: Construct)
    ensures
        construct@ == chosen_construct(
            optional_construct(block),
            optional_construct(span),
            columns@,
        ),
{
    match block {
        Some(construct) => construct,
        None => match span {
            Some(construct) => construct,
            None => Construct::Table(columns),
        },
    }
}

/// The construct that stands for the parser's `tag`: what
/// `choose_construct` makes of the parts that the tag gives. Of the
/// parts themselves nothing is known.
fn construct_of(tag: &Tag<'_>) -> Construct {
    let block = block_construct(tag);
    let span = span_construct(tag);
    let columns = table_columns(tag);
    let mut alignments: Vec<ColumnAlignment> = Vec::new();
    let mut i: usize = 0;
    while i < columns.len()
        invariant
            i <= columns.len(),
            alignments@.len() == i,
        decreases columns.len() - i,
    {
        alignments.push(alignment_of(&columns[i]));
        i += 1;
    }
    choose_construct(block, span, alignments)
}

/// The event that a parsed event without a construct stands for.
spec fn plain_view(parsed: Parsed<'_>) -> MarkupEventView {
    match parsed {
        Parsed::Text(text) => MarkupEventView::Text(text@),
        Parsed::InlineCode(text) => MarkupEventView::InlineCode(text@),
        Parsed::RawMarkup(text) => MarkupEventView::RawMarkup(text@),
        Parsed::FootnoteReference(label) => MarkupEventView::FootnoteReference(label@),
        Parsed::SoftBreak => MarkupEventView::SoftBreak,
        Parsed::HardBreak => MarkupEventView::HardBreak,
        Parsed::Rule => MarkupEventView::Rule,
        Parsed::TaskListMarker(checked) => MarkupEventView::TaskListMarker(checked),
        Parsed::Start(_) | Parsed::End(_) => arbitrary(),
    }
}

/// The event that a parsed event without a construct stands for.
fn plain_event(parsed: Parsed<'_>) -> (event: MarkupEvent)
    requires
        !(parsed is Start),
        !(parsed is End),
    ensures
        event@ == plain_view(parsed),
{
    match parsed {
        Parsed::Text(text) => MarkupEvent::Text(text),
        Parsed::InlineCode(text) => MarkupEvent::InlineCode(text),
        Parsed::RawMarkup(text) => MarkupEvent::RawMarkup(text),
        Parsed::FootnoteReference(label) => MarkupEvent::FootnoteReference(label),
        Parsed::SoftBreak => MarkupEvent::SoftBreak,
        Parsed::HardBreak => MarkupEvent::HardBreak,
        Parsed::Rule => MarkupEvent::Rule,
        Parsed::TaskListMarker(checked) => MarkupEvent::TaskListMarker(checked),
        Parsed::Start(_) | Parsed::End(_) => vstd::pervasive::unreached(),
    }
}

/// The event that stands for the parser's `event`: the start or the
/// end of the construct of its tag, or what `plain_event` makes of it.
/// Of what the parser's event holds nothing is known.
fn event_of(event: pulldown_cmark::Event<'_>) -> MarkupEvent {
    match parsed_of(event) {
        Parsed::Start(tag) => MarkupEvent::Start(construct_of(&tag)),
        Parsed::End(tag) => MarkupEvent::End(construct_of(&tag)),
        plain => plain_event(plain),
    }
}

/// Runs `pulldown_cmark::Parser::new_ext` on `text` with the flags
/// `options` (bits that name no flag are dropped) to its end. The parser
/// is a function of the text and the flags alone; its events are the
/// named sequence `markdown_events`.
#[verifier::external_body]
pub(crate) fn tokenize(text: &str, options: u32) -> (events: Vec<MarkupEvent>)
    ensures
        event_views(events@) == markdown_events(text@, options),
{
    let flags = pulldown_cmark::Options::from_bits_truncate(options);
    pulldown_cmark::Parser::new_ext(text, flags).map(|event| event_of(event)).collect()
}

} // verus!
