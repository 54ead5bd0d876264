//! Structural events: the units of a streaming parse of a markup body.

use vstd::prelude::*;

verus! {

/// How the text of a table column is aligned.
#[derive(Clone, Copy, Debug, PartialEq, Eq, Structural)]
pub enum ColumnAlignment {
    /// No alignment was asked for.
    Unaligned,
    Left,
    Center,
    Right,
}

/// A nestable markup element.
#[derive(Debug, PartialEq)]
pub enum Construct {
    Paragraph,
    /// A heading with its level.
    Heading(u32),
    BlockQuote,
    /// A code block: fenced, with its info string, or indented (`None`).
    CodeBlock(Option<String>),
    /// A list; an ordered one carries the number of its next item.
    List(Option<u64>),
    Item,
    /// A footnote definition with its label.
    FootnoteDefinition(String),
    /// A table with the alignment of each column.
    Table(Vec<ColumnAlignment>),
    TableHead,
    TableRow,
    TableCell,
    Emphasis,
    Strong,
    Strikethrough,
    /// A link with its destination.
    Link(String),
    /// An image with its destination.
    Image(String),
}

/// A construct as plain values.
pub enum ConstructView {
    Paragraph,
    Heading(u32),
    BlockQuote,
    CodeBlock(Option<Seq<char>>),
    List(Option<u64>),
    Item,
    FootnoteDefinition(Seq<char>),
    Table(Seq<ColumnAlignment>),
    TableHead,
    TableRow,
    TableCell,
    Emphasis,
    Strong,
    Strikethrough,
    Link(Seq<char>),
    Image(Seq<char>),
}

impl View for Construct {
    type V = ConstructView;

    open spec fn view(&self) -> ConstructView {
        match *self {
            Construct::Paragraph => ConstructView::Paragraph,
            Construct::Heading(level) => ConstructView::Heading(level),
            Construct::BlockQuote => ConstructView::BlockQuote,
            Construct::CodeBlock(Some(info)) => ConstructView::CodeBlock(Some(info@)),
            Construct::CodeBlock(None) => ConstructView::CodeBlock(None),
            Construct::List(start) => ConstructView::List(start),
            Construct::Item => ConstructView::Item,
            Construct::FootnoteDefinition(label) => ConstructView::FootnoteDefinition(label@),
            Construct::Table(columns) => ConstructView::Table(columns@),
            Construct::TableHead => ConstructView::TableHead,
            Construct::TableRow => ConstructView::TableRow,
            Construct::TableCell => ConstructView::TableCell,
            Construct::Emphasis => ConstructView::Emphasis,
            Construct::Strong => ConstructView::Strong,
            Construct::Strikethrough => ConstructView::Strikethrough,
            Construct::Link(destination) => ConstructView::Link(destination@),
            Construct::Image(destination) => ConstructView::Image(destination@),
        }
    }
}

/// A copy of `columns`.
pub fn copy_columns(columns: &Vec<ColumnAlignment>) -> (copy: Vec<ColumnAlignment>)
    ensures
        copy@ == columns@,
{
    let mut copy: Vec<ColumnAlignment> = Vec::new();
    let mut i: usize = 0;
    while i < columns.len()
        invariant
            i <= columns.len(),
            copy@ == columns@.subrange(0, i as int),
        decreases columns.len() - i,
    {
        copy.push(columns[i]);
        i += 1;
        assert(copy@ =~= columns@.subrange(0, i as int));
    }
    assert(copy@ =~= columns@);
    copy
}

/// The name of a kind of construct.
pub open spec fn construct_name(construct: ConstructView) -> Seq<char> {
    match construct {
        ConstructView::Paragraph => "paragraph"@,
        ConstructView::Heading(_) => "heading"@,
        ConstructView::BlockQuote => "block quote"@,
        ConstructView::CodeBlock(_) => "code block"@,
        ConstructView::List(_) => "list"@,
        ConstructView::Item => "list item"@,
        ConstructView::FootnoteDefinition(_) => "footnote definition"@,
        ConstructView::Table(_) => "table"@,
        ConstructView::TableHead => "table head"@,
        ConstructView::TableRow => "table row"@,
        ConstructView::TableCell => "table cell"@,
        ConstructView::Emphasis => "emphasis"@,
        ConstructView::Strong => "strong"@,
        ConstructView::Strikethrough => "strikethrough"@,
        ConstructView::Link(_) => "link"@,
        ConstructView::Image(_) => "image"@,
    }
}

impl Construct {
    /// The name of the kind of construct.
    pub fn name(&self) -> (name: &'static str)
        ensures
            name@ == construct_name(self@),
    {
        match self {
            Construct::Paragraph => "paragraph",
            Construct::Heading(_) => "heading",
            Construct::BlockQuote => "block quote",
            Construct::CodeBlock(_) => "code block",
            Construct::List(_) => "list",
            Construct::Item => "list item",
            Construct::FootnoteDefinition(_) => "footnote definition",
            Construct::Table(_) => "table",
            Construct::TableHead => "table head",
            Construct::TableRow => "table row",
            Construct::TableCell => "table cell",
            Construct::Emphasis => "emphasis",
            Construct::Strong => "strong",
            Construct::Strikethrough => "strikethrough",
            Construct::Link(_) => "link",
            Construct::Image(_) => "image",
        }
    }

    /// A copy of the construct.
    pub fn duplicate(&self) -> (copy: Construct)
        ensures
            copy@ == self@,
    {
        match self {
            Construct::Paragraph => Construct::Paragraph,
            Construct::Heading(level) => Construct::Heading(*level),
            Construct::BlockQuote => Construct::BlockQuote,
            Construct::CodeBlock(Some(info)) => Construct::CodeBlock(Some(info.clone())),
            Construct::CodeBlock(None) => Construct::CodeBlock(None),
            Construct::List(start) => Construct::List(*start),
            Construct::Item => Construct::Item,
            Construct::FootnoteDefinition(label) => Construct::FootnoteDefinition(label.clone()),
            Construct::Table(columns) => Construct::Table(copy_columns(columns)),
            Construct::TableHead => Construct::TableHead,
            Construct::TableRow => Construct::TableRow,
            Construct::TableCell => Construct::TableCell,
            Construct::Emphasis => Construct::Emphasis,
            Construct::Strong => Construct::Strong,
            Construct::Strikethrough => Construct::Strikethrough,
            Construct::Link(destination) => Construct::Link(destination.clone()),
            Construct::Image(destination) => Construct::Image(destination.clone()),
        }
    }
}

/// One unit of a streaming parse.
#[derive(Debug, PartialEq)]
pub enum MarkupEvent {
    /// A construct opens; what follows up to its `End` lies inside it.
    Start(Construct),
    /// A construct closes.
    End(Construct),
    /// A run of text.
    Text(String),
    /// Inline code.
    InlineCode(String),
    /// Raw embedded markup.
    RawMarkup(String),
    /// A reference to a footnote, by its label.
    FootnoteReference(String),
    SoftBreak,
    HardBreak,
    Rule,
    /// A task list marker; `true` where it is checked.
    TaskListMarker(bool),
}

/// An event as plain values.
pub enum MarkupEventView {
    Start(ConstructView),
    End(ConstructView),
    Text(Seq<char>),
    InlineCode(Seq<char>),
    RawMarkup(Seq<char>),
    FootnoteReference(Seq<char>),
    SoftBreak,
    HardBreak,
    Rule,
    TaskListMarker(bool),
}

impl View for MarkupEvent {
    type V = MarkupEventView;

    open spec fn view(&self) -> MarkupEventView {
        match *self {
            MarkupEvent::Start(construct) => MarkupEventView::Start(construct@),
            MarkupEvent::End(construct) => MarkupEventView::End(construct@),
            MarkupEvent::Text(text) => MarkupEventView::Text(text@),
            MarkupEvent::InlineCode(text) => MarkupEventView::InlineCode(text@),
            MarkupEvent::RawMarkup(text) => MarkupEventView::RawMarkup(text@),
            MarkupEvent::FootnoteReference(label) => MarkupEventView::FootnoteReference(label@),
            MarkupEvent::SoftBreak => MarkupEventView::SoftBreak,
            MarkupEvent::HardBreak => MarkupEventView::HardBreak,
            MarkupEvent::Rule => MarkupEventView::Rule,
            MarkupEvent::TaskListMarker(checked) => MarkupEventView::TaskListMarker(checked),
        }
    }
}

/// The events of `events` as plain values, in order.
pub open spec fn event_views(events: Seq<MarkupEvent>) -> Seq<MarkupEventView> {
    Seq::new(events.len(), |i: int| events[i]@)
}

/// The constructs of `stack` as plain values, in order.
pub open spec fn construct_views(stack: Seq<Construct>) -> Seq<ConstructView> {
    Seq::new(stack.len(), |i: int| stack[i]@)
}

} // verus!
