//! The canonical form of a markup body: one pass over its structural
//! events, with a stack of the constructs that are open.

use crate::markdown::event::{
    ColumnAlignment, Construct, ConstructView, MarkupEvent, MarkupEventView, construct_name,
    construct_views, event_views,
};
use crate::markdown::tokenizer::{ENABLE_STRIKETHROUGH, ENABLE_TABLES, markdown_events, tokenize};
use crate::text::{
    chars_of, decimal, decode, drop_double_space, drop_last_char, drop_space, optional_text,
    pop_char, pop_double_space, pop_space, push_chars, push_decimal, push_repeat, push_str,
    repeat, same_text, string_of, trim, trim_of,
};
use vstd::prelude::*;
use vstd::utf8::{decode_utf8, valid_utf8};

verus! {

/// Why a body could not be rendered.
#[derive(Debug, PartialEq)]
pub enum RenderError {
    /// What the diagram renderer wrote is not well-formed text.
    Encoding,
    /// A construct stands where the open constructs do not allow it.
    UnknownConstruct(Construct),
    /// The diagram renderer failed; its diagnostics.
    Diagram(String),
}

/// A render error as plain values.
pub enum RenderErrorView {
    Encoding,
    UnknownConstruct(ConstructView),
    Diagram(Seq<char>),
}

impl View for RenderError {
    type V = RenderErrorView;

    open spec fn view(&self) -> RenderErrorView {
        match *self {
            RenderError::Encoding => RenderErrorView::Encoding,
            RenderError::UnknownConstruct(construct) => RenderErrorView::UnknownConstruct(
                construct@,
            ),
            RenderError::Diagram(diagnostics) => RenderErrorView::Diagram(diagnostics@),
        }
    }
}

/// What an error says of itself: for a misplaced construct its kind,
/// for a failed diagram the renderer's diagnostics.
pub open spec fn error_message(error: RenderErrorView) -> Seq<char> {
    match error {
        RenderErrorView::Encoding => "the output of the diagram renderer is not text"@,
        RenderErrorView::UnknownConstruct(construct) => "misplaced construct: "@ + construct_name(
            construct,
        ),
        RenderErrorView::Diagram(diagnostics) => diagnostics,
    }
}

impl RenderError {
    /// What the error says of itself.
    pub fn message(&self) -> (text: String)
        ensures
            text@ == error_message(self@),
    {
        match self {
            RenderError::Encoding => "the output of the diagram renderer is not text".to_owned(),
            RenderError::UnknownConstruct(construct) => "misplaced construct: ".to_owned().concat(
                construct.name(),
            ),
            RenderError::Diagram(diagnostics) => diagnostics.clone(),
        }
    }
}

/// What one run of the diagram renderer left behind.
#[derive(Debug)]
pub struct DiagramOutput {
    /// The renderer ended with status zero.
    pub success: bool,
    /// What it wrote to its standard output.
    pub stdout: Vec<u8>,
    /// What it wrote to its standard error.
    pub stderr: Vec<u8>,
}

/// The info string of a diagram description.
pub open spec fn dot_info() -> Seq<char> {
    "dot"@
}

/// The info string of tabular data that is to become a table.
pub open spec fn table_info() -> Seq<char> {
    "csv target=table"@
}

/// The info string of tabular data that is to become a card.
pub open spec fn card_info() -> Seq<char> {
    "csv target=card"@
}

/// The graphics markup of a successful run, or the error that the run
/// stands for: its diagnostics where it failed, `Encoding` where the
/// bytes that count are not well-formed text.
pub open spec fn outcome(output: DiagramOutput) -> Result<Seq<char>, RenderErrorView> {
    if output.success {
        if valid_utf8(output.stdout@) {
            Ok(decode_utf8(output.stdout@))
        } else {
            Err(RenderErrorView::Encoding)
        }
    } else {
        if valid_utf8(output.stderr@) {
            Err(RenderErrorView::Diagram(decode_utf8(output.stderr@)))
        } else {
            Err(RenderErrorView::Encoding)
        }
    }
}

/// The outcome of the run with index `k`; a run that was never made
/// counts as failed, without diagnostics.
pub open spec fn outcome_at(
    outputs: Seq<DiagramOutput>,
    k: nat,
) -> Result<Seq<char>, RenderErrorView> {
    if k < outputs.len() {
        outcome(outputs[k as int])
    } else {
        Err(RenderErrorView::Diagram(Seq::empty()))
    }
}

/// The innermost open construct.
pub open spec fn top(stack: Seq<ConstructView>) -> Option<ConstructView> {
    if stack.len() > 0 {
        Some(stack.last())
    } else {
        None
    }
}

/// `stack` without its innermost construct.
pub open spec fn popped(stack: Seq<ConstructView>) -> Seq<ConstructView> {
    if stack.len() > 0 {
        stack.drop_last()
    } else {
        stack
    }
}

/// The number of the item after item `n`.
pub open spec fn next_number(n: u64) -> u64 {
    if n < u64::MAX {
        (n + 1) as u64
    } else {
        n
    }
}

/// The innermost open construct is an image: what stands between its
/// start and its end is not rendered.
pub open spec fn in_image(stack: Seq<ConstructView>) -> bool {
    top(stack) matches Some(ConstructView::Image(_))
}

/// The open constructs after `event`, or nothing where the event cannot
/// stand here. Inside an image only an image opens or closes; elsewhere
/// the event opens or closes its construct as `unfolded_stack` says.
pub open spec fn next_stack(
    stack: Seq<ConstructView>,
    event: MarkupEventView,
) -> Option<Seq<ConstructView>> {
    if in_image(stack) {
        match event {
            MarkupEventView::Start(ConstructView::Image(destination)) => Some(
                stack.push(ConstructView::Image(destination)),
            ),
            MarkupEventView::End(ConstructView::Image(_)) => Some(popped(stack)),
            _ => Some(stack),
        }
    } else {
        unfolded_stack(stack, event)
    }
}

/// The open constructs after an event that stands in no image, or
/// nothing where the event cannot stand here: a list item outside a
/// list, or the end of a table head outside a table.
pub open spec fn unfolded_stack(
    stack: Seq<ConstructView>,
    event: MarkupEventView,
) -> Option<Seq<ConstructView>> {
    match event {
        MarkupEventView::Start(construct) => match construct {
            ConstructView::Paragraph => match top(stack) {
                Some(ConstructView::BlockQuote) => Some(stack),
                _ => Some(stack.push(construct)),
            },
            ConstructView::Item => match top(stack) {
                Some(ConstructView::List(Some(n))) => Some(
                    popped(stack).push(ConstructView::List(Some(next_number(n)))),
                ),
                Some(ConstructView::List(None)) => Some(stack),
                _ => None,
            },
            ConstructView::TableHead | ConstructView::TableRow | ConstructView::TableCell => Some(
                stack,
            ),
            _ => Some(stack.push(construct)),
        },
        MarkupEventView::End(construct) => match construct {
            ConstructView::Paragraph => match top(stack) {
                Some(ConstructView::BlockQuote) => Some(stack),
                _ => Some(popped(stack)),
            },
            ConstructView::TableHead => match top(stack) {
                Some(ConstructView::Table(_)) => Some(stack),
                _ => None,
            },
            ConstructView::TableRow | ConstructView::TableCell | ConstructView::Item
            | ConstructView::Image(_) => Some(stack),
            _ => Some(popped(stack)),
        },
        _ => Some(stack),
    }
}

/// The list depth after `event`: the first list opens depth zero, each
/// list inside it one more.
pub open spec fn next_depth(depth: Option<nat>, event: MarkupEventView) -> Option<nat> {
    match event {
        MarkupEventView::Start(ConstructView::List(_)) => match depth {
            Some(d) => Some(d + 1),
            None => Some(0),
        },
        MarkupEventView::End(ConstructView::List(_)) => match depth {
            Some(d) => if d == 0 {
                None
            } else {
                Some((d - 1) as nat)
            },
            None => None,
        },
        _ => depth,
    }
}

/// The event is the text of a diagram description: its markup comes from
/// the renderer.
pub open spec fn wants_diagram(stack: Seq<ConstructView>, event: MarkupEventView) -> bool {
    event is Text && top(stack) == Some(ConstructView::CodeBlock(Some(dot_info())))
}

/// A character that stands close to the text before it.
pub open spec fn hugs_previous(c: char) -> bool {
    ||| c == '.'
    ||| c == ','
    ||| c == ';'
    ||| c == ']'
    ||| c == ')'
    ||| c == '}'
    ||| c == '\u{201C}'
    ||| c == '\u{201D}'
    ||| c == '\u{2018}'
}

/// A character that stands close to the text behind it.
pub open spec fn hugs_next(c: char) -> bool {
    ||| c == '['
    ||| c == '('
    ||| c == '{'
    ||| c == '\u{201C}'
    ||| c == '\u{2018}'
}

/// `out` with the text run `chunk` joined to it: the trimmed run,
/// without a space before closing punctuation, and with one space behind
/// it unless it ends on an opening mark.
pub open spec fn recomposed(out: Seq<char>, chunk: Seq<char>) -> Seq<char> {
    let text = trim(chunk);
    let before = if text.len() > 0 && hugs_previous(text[0]) {
        drop_space(out)
    } else {
        out
    };
    if text.len() > 0 && hugs_next(text.last()) {
        before + text
    } else {
        before + text + " "@
    }
}

/// What opens a code block.
pub open spec fn code_opening(kind: Option<Seq<char>>) -> Seq<char> {
    match kind {
        None => "\n"@ + "```"@ + "\n"@,
        Some(info) => if info == dot_info() {
            "\n"@ + "\n<div class=\"figure from-dot\">"@ + "\n"@
        } else if info == table_info() {
            "\n"@ + "\n<div class=\"table-wrapper from-csv\">"@ + "\n"@
        } else if info == card_info() {
            "\n"@ + "\n<div class=\"card-wrapper from-csv\">"@ + "\n"@
        } else {
            "\n"@ + "```"@ + info + "\n"@
        },
    }
}

/// What closes a code block.
pub open spec fn code_closing(kind: Option<Seq<char>>) -> Seq<char> {
    match kind {
        Some(info) => if info == dot_info() || info == table_info() {
            "</div>\n"@
        } else {
            "```\n"@
        },
        None => "```\n"@,
    }
}

/// The mark of a column's alignment in the row under a table head.
pub open spec fn alignment_mark(alignment: ColumnAlignment) -> Seq<char> {
    match alignment {
        ColumnAlignment::Unaligned => "-"@,
        ColumnAlignment::Left => ":-"@,
        ColumnAlignment::Center => ":-:"@,
        ColumnAlignment::Right => "-:"@,
    }
}

/// The alignment marks of `columns`, with a bar between each two.
pub open spec fn alignment_marks(columns: Seq<ColumnAlignment>) -> Seq<char>
    decreases columns.len(),
{
    if columns.len() == 0 {
        Seq::empty()
    } else if columns.len() == 1 {
        alignment_mark(columns[0])
    } else {
        alignment_marks(columns.drop_last()) + "|"@ + alignment_mark(columns.last())
    }
}

/// The indentation of a list item: two spaces for each level of depth,
/// and one more inside an ordered list.
pub open spec fn item_indent(depth: Option<nat>, enclosing: Option<ConstructView>) -> Seq<char> {
    let base = match depth {
        Some(d) => repeat(' ', d) + repeat(' ', d),
        None => Seq::empty(),
    };
    match enclosing {
        Some(ConstructView::List(Some(_))) => base + " "@,
        _ => base,
    }
}

/// The rendering state between two events.
pub struct RenderModel {
    /// The open constructs, innermost last.
    pub stack: Seq<ConstructView>,
    /// The depth of the innermost open list.
    pub depth: Option<nat>,
    /// The output so far.
    pub out: Seq<char>,
    /// How many diagram runs were used up.
    pub used: nat,
}

/// The output after a construct opens.
pub open spec fn opened(
    stack: Seq<ConstructView>,
    depth: Option<nat>,
    out: Seq<char>,
    construct: ConstructView,
) -> Seq<char> {
    match construct {
        ConstructView::CodeBlock(kind) => out + code_opening(kind),
        ConstructView::Paragraph => match top(stack) {
            Some(ConstructView::BlockQuote) => out + "\n> "@,
            Some(ConstructView::FootnoteDefinition(_)) => out,
            _ => out + "\n"@,
        },
        ConstructView::Heading(level) => out + "\n"@ + repeat('#', level as nat) + " "@,
        ConstructView::BlockQuote => out,
        ConstructView::List(_) => out,
        ConstructView::Item => match top(stack) {
            Some(ConstructView::List(Some(n))) => drop_space(out) + "\n"@ + item_indent(
                depth,
                top(popped(stack)),
            ) + decimal(n as nat) + ". "@,
            Some(ConstructView::List(None)) => drop_space(out) + "\n"@ + item_indent(
                depth,
                top(popped(stack)),
            ) + "- "@,
            _ => out,
        },
        ConstructView::FootnoteDefinition(label) => out + "\n[^"@ + label + "]: "@,
        ConstructView::Table(_) => out + "\n"@,
        ConstructView::TableHead => out + "| "@,
        ConstructView::TableRow => out + "| "@,
        ConstructView::TableCell => out,
        ConstructView::Emphasis => out + "_"@,
        ConstructView::Strong => out + "**"@,
        ConstructView::Strikethrough => out + "~~"@,
        ConstructView::Link(_) => out + "["@,
        ConstructView::Image(destination) => out + "![]("@ + destination + ")"@,
    }
}

/// The output after a construct closes.
pub open spec fn closed(
    stack: Seq<ConstructView>,
    depth: Option<nat>,
    out: Seq<char>,
    construct: ConstructView,
) -> Seq<char> {
    match construct {
        ConstructView::CodeBlock(kind) => out + code_closing(kind),
        ConstructView::Paragraph => match top(stack) {
            Some(ConstructView::BlockQuote) => drop_space(out) + "\n>"@,
            _ => drop_space(out) + "\n"@,
        },
        ConstructView::Heading(_) => drop_last_char(out) + "\n"@,
        ConstructView::BlockQuote => drop_last_char(out) + "\n"@,
        ConstructView::List(_) => if next_depth(depth, MarkupEventView::End(construct))
            is None {
            drop_last_char(out) + "\n"@
        } else {
            out
        },
        ConstructView::Item => out,
        ConstructView::FootnoteDefinition(_) => out,
        ConstructView::Table(_) => out + "\n"@,
        ConstructView::TableHead => match top(stack) {
            Some(ConstructView::Table(columns)) => drop_last_char(out) + "\n|"@
                + alignment_marks(columns) + "|\n"@,
            _ => out,
        },
        ConstructView::TableRow => drop_last_char(out) + "\n"@,
        ConstructView::TableCell => out + "| "@,
        ConstructView::Emphasis => drop_last_char(out) + "_ "@,
        ConstructView::Strong => drop_last_char(out) + "** "@,
        ConstructView::Strikethrough => drop_last_char(out) + "~~ "@,
        ConstructView::Link(destination) => drop_last_char(out) + "]("@ + destination + ") "@,
        ConstructView::Image(_) => out + " "@,
    }
}

/// The output after a text run that needs no renderer: inside a fenced
/// code block the text as it is (between two marks where it is tabular
/// data for a table), elsewhere the recomposed sentence.
pub open spec fn written(stack: Seq<ConstructView>, out: Seq<char>, text: Seq<char>) -> Seq<char> {
    match top(stack) {
        Some(ConstructView::CodeBlock(Some(info))) => if info == table_info() {
            out + "!!!!\n"@ + text + "\n!!!!"@
        } else {
            out + text
        },
        _ => recomposed(out, text),
    }
}

/// The output after an event that needs no renderer. Inside an image
/// no event changes the output, but for the end of the outermost image,
/// which appends one space.
pub open spec fn emitted(
    stack: Seq<ConstructView>,
    depth: Option<nat>,
    out: Seq<char>,
    event: MarkupEventView,
) -> Seq<char> {
    if in_image(stack) {
        match event {
            MarkupEventView::End(ConstructView::Image(_)) => if in_image(popped(stack)) {
                out
            } else {
                out + " "@
            },
            _ => out,
        }
    } else {
        unfolded(stack, depth, out, event)
    }
}

/// The list depth after `event`; inside an image it stays as it is.
pub open spec fn depth_after(
    stack: Seq<ConstructView>,
    depth: Option<nat>,
    event: MarkupEventView,
) -> Option<nat> {
    if in_image(stack) {
        depth
    } else {
        next_depth(depth, event)
    }
}

/// The output after an event that stands in no image and needs no
/// renderer.
pub open spec fn unfolded(
    stack: Seq<ConstructView>,
    depth: Option<nat>,
    out: Seq<char>,
    event: MarkupEventView,
) -> Seq<char> {
    match event {
        MarkupEventView::Start(construct) => opened(stack, depth, out, construct),
        MarkupEventView::End(construct) => closed(stack, depth, out, construct),
        MarkupEventView::Text(text) => written(stack, out, text),
        MarkupEventView::InlineCode(code) => drop_double_space(out) + "`"@ + code + "`"@ + " "@,
        MarkupEventView::RawMarkup(markup) => out + markup,
        _ => out,
    }
}

/// The construct that an event opens or closes.
pub open spec fn construct_of(event: MarkupEventView) -> ConstructView {
    match event {
        MarkupEventView::Start(construct) => construct,
        MarkupEventView::End(construct) => construct,
        _ => ConstructView::Paragraph,
    }
}

/// The state after one event, or the error that ends the rendering. The
/// text of a diagram description takes the next run of the renderer and
/// appends its markup.
pub open spec fn step(
    m: RenderModel,
    event: MarkupEventView,
    outputs: Seq<DiagramOutput>,
) -> Result<RenderModel, RenderErrorView> {
    match next_stack(m.stack, event) {
        None => Err(RenderErrorView::UnknownConstruct(construct_of(event))),
        Some(stack) => if wants_diagram(m.stack, event) {
            match outcome_at(outputs, m.used) {
                Ok(markup) => Ok(
                    RenderModel { stack, depth: m.depth, out: m.out + markup, used: m.used + 1 },
                ),
                Err(error) => Err(error),
            }
        } else {
            Ok(
                RenderModel {
                    stack,
                    depth: depth_after(m.stack, m.depth, event),
                    out: emitted(m.stack, m.depth, m.out, event),
                    used: m.used,
                },
            )
        },
    }
}

/// The state before the first event.
pub open spec fn initial() -> RenderModel {
    RenderModel { stack: Seq::empty(), depth: None, out: Seq::empty(), used: 0 }
}

/// The state after the first `n` events.
pub open spec fn rendered(
    events: Seq<MarkupEventView>,
    outputs: Seq<DiagramOutput>,
    n: nat,
) -> Result<RenderModel, RenderErrorView>
    decreases n,
{
    if n == 0 {
        Ok(initial())
    } else {
        match rendered(events, outputs, (n - 1) as nat) {
            Ok(m) => step(m, events[n - 1], outputs),
            Err(error) => Err(error),
        }
    }
}

/// The canonical text of a body with the events `events`, where
/// `outputs` holds the diagram renderer's runs in the order of the
/// diagram descriptions.
pub open spec fn canonical(
    events: Seq<MarkupEventView>,
    outputs: Seq<DiagramOutput>,
) -> Result<Seq<char>, RenderErrorView> {
    match rendered(events, outputs, events.len()) {
        Ok(m) => Ok(m.out),
        Err(error) => Err(error),
    }
}

/// The list depth as the model counts it.
pub open spec fn depth_view(depth: Option<usize>) -> Option<nat> {
    match depth {
        Some(d) => Some(d as nat),
        None => None,
    }
}

/// The rendering state: the open constructs, the list depth, the output
/// so far and the number of diagram runs used up.
pub struct RenderState {
    pub stack: Vec<Construct>,
    pub list_depth: Option<usize>,
    pub recipient: Vec<char>,
    pub diagrams: usize,
}

impl View for RenderState {
    type V = RenderModel;

    open spec fn view(&self) -> RenderModel {
        RenderModel {
            stack: construct_views(self.stack@),
            depth: depth_view(self.list_depth),
            out: self.recipient@,
            used: self.diagrams as nat,
        }
    }
}

/// The innermost open construct.
fn top_of(stack: &Vec<Construct>) -> (found: Option<&Construct>)
    ensures
        match found {
            Some(construct) => top(construct_views(stack@)) == Some(construct@),
            None => top(construct_views(stack@)) is None,
        },
{
    if stack.len() > 0 {
        Some(&stack[stack.len() - 1])
    } else {
        None
    }
}

/// Tells whether the construct that encloses the innermost one is an
/// ordered list.
fn inside_ordered(stack: &Vec<Construct>) -> (ordered: bool)
    ensures
        ordered == (top(popped(construct_views(stack@))) matches Some(
            ConstructView::List(Some(_)),
        )),
{
    if stack.len() > 1 {
        match &stack[stack.len() - 2] {
            Construct::List(Some(_)) => true,
            _ => false,
        }
    } else {
        false
    }
}

/// Opens `construct` inside the open constructs.
fn push_construct(stack: &mut Vec<Construct>, construct: Construct)
    ensures
        construct_views(final(stack)@) == construct_views(old(stack)@).push(construct@),
{
    stack.push(construct);
    assert(construct_views(stack@) =~= construct_views(old(stack)@).push(construct@));
}

/// Closes the innermost open construct, where there is one.
fn pop_construct(stack: &mut Vec<Construct>)
    ensures
        construct_views(final(stack)@) == popped(construct_views(old(stack)@)),
{
    let _ = stack.pop();
    assert(construct_views(stack@) =~= popped(construct_views(old(stack)@)));
}

/// Tells whether `c` stands close to the text before it.
fn is_closing_mark(c: char) -> (closing: bool)
    ensures
        closing == hugs_previous(c),
{
    c == '.' || c == ',' || c == ';' || c == ']' || c == ')' || c == '}' || c == '\u{201C}' || c
        == '\u{201D}' || c == '\u{2018}'
}

/// Tells whether `c` stands close to the text behind it.
fn is_opening_mark(c: char) -> (opening: bool)
    ensures
        opening == hugs_next(c),
{
    c == '[' || c == '(' || c == '{' || c == '\u{201C}' || c == '\u{2018}'
}

/// Joins the text run `chunk` to `recipient`, so that one space parts
/// two words, none stands before closing punctuation and none behind an
/// opening mark.
pub fn recompose_sentence(chunk: &str, recipient: &mut Vec<char>)
    ensures
        final(recipient)@ == recomposed(old(recipient)@, chunk@),
{
    let text = trim_of(&chars_of(chunk));
    if text.len() > 0 && is_closing_mark(text[0]) {
        pop_space(recipient);
    }
    push_chars(recipient, &text);
    if !(text.len() > 0 && is_opening_mark(text[text.len() - 1])) {
        push_str(recipient, " ");
    }
}

/// Writes what opens a code block.
fn write_code_opening(out: &mut Vec<char>, kind: &Option<String>)
    ensures
        final(out)@ == old(out)@ + code_opening(optional_text(*kind)),
{
    push_str(out, "\n");
    match kind {
        None => {
            push_str(out, "```");
        },
        Some(info) => {
            if same_text(info.as_str(), "dot") {
                push_str(out, "\n<div class=\"figure from-dot\">");
            } else if same_text(info.as_str(), "csv target=table") {
                push_str(out, "\n<div class=\"table-wrapper from-csv\">");
            } else if same_text(info.as_str(), "csv target=card") {
                push_str(out, "\n<div class=\"card-wrapper from-csv\">");
            } else {
                push_str(out, "```");
                push_str(out, info.as_str());
            }
        },
    }
    push_str(out, "\n");
    assert(out@ =~= old(out)@ + code_opening(optional_text(*kind)));
}

/// Writes what closes a code block.
fn write_code_closing(out: &mut Vec<char>, kind: &Option<String>)
    ensures
        final(out)@ == old(out)@ + code_closing(optional_text(*kind)),
{
    match kind {
        Some(info) => {
            if same_text(info.as_str(), "dot") || same_text(info.as_str(), "csv target=table") {
                push_str(out, "</div>\n");
            } else {
                push_str(out, "```\n");
            }
        },
        None => {
            push_str(out, "```\n");
        },
    }
}

/// Writes the mark of one column's alignment.
fn write_alignment_mark(out: &mut Vec<char>, alignment: ColumnAlignment)
    ensures
        final(out)@ == old(out)@ + alignment_mark(alignment),
{
    match alignment {
        ColumnAlignment::Unaligned => push_str(out, "-"),
        ColumnAlignment::Left => push_str(out, ":-"),
        ColumnAlignment::Center => push_str(out, ":-:"),
        ColumnAlignment::Right => push_str(out, "-:"),
    }
}

/// Writes the alignment marks of `columns`, with a bar between each two.
fn write_alignment_marks(out: &mut Vec<char>, columns: &Vec<ColumnAlignment>)
    ensures
        final(out)@ == old(out)@ + alignment_marks(columns@),
{
    let mut i: usize = 0;
    assert(out@ =~= old(out)@ + alignment_marks(columns@.take(0)));
    while i < columns.len()
        invariant
            i <= columns.len(),
            out@ == old(out)@ + alignment_marks(columns@.take(i as int)),
        decreases columns.len() - i,
    {
        let ghost before = out@;
        if i > 0 {
            push_str(out, "|");
        }
        write_alignment_mark(out, columns[i]);
        proof {
            let next = columns@.take(i + 1);
            assert(next.drop_last() =~= columns@.take(i as int));
            assert(next.last() == columns@[i as int]);
            assert(out@ =~= old(out)@ + alignment_marks(next));
        }
        i += 1;
    }
    assert(columns@.take(columns@.len() as int) =~= columns@);
}

/// Writes the indentation of a list item.
fn write_indent(out: &mut Vec<char>, depth: Option<usize>, stack: &Vec<Construct>)
    ensures
        final(out)@ == old(out)@ + item_indent(
            depth_view(depth),
            top(popped(construct_views(stack@))),
        ),
{
    if let Some(d) = depth {
        push_repeat(out, ' ', d);
        push_repeat(out, ' ', d);
    }
    if inside_ordered(stack) {
        push_str(out, " ");
    }
    assert(out@ =~= old(out)@ + item_indent(
        depth_view(depth),
        top(popped(construct_views(stack@))),
    ));
}

/// Writes what a construct puts out where it opens.
fn emit_start(stack: &Vec<Construct>, depth: Option<usize>, out: &mut Vec<char>, construct: &Construct)
    ensures
        final(out)@ == opened(construct_views(stack@), depth_view(depth), old(out)@, construct@),
{
    match construct {
        Construct::CodeBlock(kind) => {
            write_code_opening(out, kind);
        },
        Construct::Paragraph => match top_of(stack) {
            Some(Construct::BlockQuote) => {
                push_str(out, "\n> ");
            },
            Some(Construct::FootnoteDefinition(_)) => {},
            _ => {
                push_str(out, "\n");
            },
        },
        Construct::Heading(level) => {
            push_str(out, "\n");
            push_repeat(out, '#', *level as usize);
            push_str(out, " ");
        },
        Construct::BlockQuote => {},
        Construct::List(_) => {},
        Construct::Item => match top_of(stack) {
            Some(Construct::List(Some(n))) => {
                pop_space(out);
                push_str(out, "\n");
                write_indent(out, depth, stack);
                push_decimal(out, *n);
                push_str(out, ". ");
            },
            Some(Construct::List(None)) => {
                pop_space(out);
                push_str(out, "\n");
                write_indent(out, depth, stack);
                push_str(out, "- ");
            },
            _ => {},
        },
        Construct::FootnoteDefinition(label) => {
            push_str(out, "\n[^");
            push_str(out, label.as_str());
            push_str(out, "]: ");
        },
        Construct::Table(_) => {
            push_str(out, "\n");
        },
        Construct::TableHead => {
            push_str(out, "| ");
        },
        Construct::TableRow => {
            push_str(out, "| ");
        },
        Construct::TableCell => {},
        Construct::Emphasis => {
            push_str(out, "_");
        },
        Construct::Strong => {
            push_str(out, "**");
        },
        Construct::Strikethrough => {
            push_str(out, "~~");
        },
        Construct::Link(_) => {
            push_str(out, "[");
        },
        Construct::Image(destination) => {
            push_str(out, "![](");
            push_str(out, destination.as_str());
            push_str(out, ")");
        },
    }
}

/// The list depth after `event`.
fn advance_depth(depth: Option<usize>, event: &MarkupEvent) -> (next: Option<usize>)
    requires
        depth != Some(usize::MAX),
    ensures
        depth_view(next) == next_depth(depth_view(depth), event@),
{
    match event {
        MarkupEvent::Start(Construct::List(_)) => match depth {
            Some(d) => Some(d + 1),
            None => Some(0),
        },
        MarkupEvent::End(Construct::List(_)) => match depth {
            Some(d) => if d == 0 {
                None
            } else {
                Some(d - 1)
            },
            None => None,
        },
        _ => depth,
    }
}

/// Writes what a construct puts out where it closes.
fn emit_end(stack: &Vec<Construct>, depth: Option<usize>, out: &mut Vec<char>, construct: &Construct)
    ensures
        final(out)@ == closed(construct_views(stack@), depth_view(depth), old(out)@, construct@),
{
    match construct {
        Construct::CodeBlock(kind) => {
            write_code_closing(out, kind);
        },
        Construct::Paragraph => {
            pop_space(out);
            match top_of(stack) {
                Some(Construct::BlockQuote) => {
                    push_str(out, "\n>");
                },
                _ => {
                    push_str(out, "\n");
                },
            }
        },
        Construct::Heading(_) => {
            pop_char(out);
            push_str(out, "\n");
        },
        Construct::BlockQuote => {
            pop_char(out);
            push_str(out, "\n");
        },
        Construct::List(_) => {
            let last = match depth {
                Some(d) => d == 0,
                None => true,
            };
            if last {
                pop_char(out);
                push_str(out, "\n");
            }
        },
        Construct::Item => {},
        Construct::FootnoteDefinition(_) => {},
        Construct::Table(_) => {
            push_str(out, "\n");
        },
        Construct::TableHead => match top_of(stack) {
            Some(Construct::Table(columns)) => {
                pop_char(out);
                push_str(out, "\n|");
                write_alignment_marks(out, columns);
                push_str(out, "|\n");
            },
            _ => {},
        },
        Construct::TableRow => {
            pop_char(out);
            push_str(out, "\n");
        },
        Construct::TableCell => {
            push_str(out, "| ");
        },
        Construct::Emphasis => {
            pop_char(out);
            push_str(out, "_ ");
        },
        Construct::Strong => {
            pop_char(out);
            push_str(out, "** ");
        },
        Construct::Strikethrough => {
            pop_char(out);
            push_str(out, "~~ ");
        },
        Construct::Link(destination) => {
            pop_char(out);
            push_str(out, "](");
            push_str(out, destination.as_str());
            push_str(out, ") ");
        },
        Construct::Image(_) => {
            push_str(out, " ");
        },
    }
}

/// Writes a text run that needs no renderer.
fn write_text(stack: &Vec<Construct>, out: &mut Vec<char>, text: &String)
    ensures
        final(out)@ == written(construct_views(stack@), old(out)@, text@),
{
    match top_of(stack) {
        Some(Construct::CodeBlock(Some(info))) => {
            if same_text(info.as_str(), "csv target=table") {
                push_str(out, "!!!!\n");
                push_str(out, text.as_str());
                push_str(out, "\n!!!!");
            } else {
                push_str(out, text.as_str());
            }
        },
        _ => {
            recompose_sentence(text.as_str(), out);
        },
    }
}

/// Tells whether the innermost open construct is an image.
fn inside_image(stack: &Vec<Construct>) -> (inside: bool)
    ensures
        inside == in_image(construct_views(stack@)),
{
    match top_of(stack) {
        Some(Construct::Image(_)) => true,
        _ => false,
    }
}

/// Tells whether the construct that encloses the innermost one is an
/// image.
fn image_below(stack: &Vec<Construct>) -> (inside: bool)
    ensures
        inside == in_image(popped(construct_views(stack@))),
{
    if stack.len() > 1 {
        match &stack[stack.len() - 2] {
            Construct::Image(_) => true,
            _ => false,
        }
    } else {
        false
    }
}

/// Writes what an event that needs no renderer puts out.
fn emit(stack: &Vec<Construct>, depth: Option<usize>, out: &mut Vec<char>, event: &MarkupEvent)
    ensures
        final(out)@ == emitted(construct_views(stack@), depth_view(depth), old(out)@, event@),
{
    if inside_image(stack) {
        match event {
            MarkupEvent::End(Construct::Image(_)) => {
                if !image_below(stack) {
                    push_str(out, " ");
                }
            },
            _ => {},
        }
    } else {
        emit_unfolded(stack, depth, out, event);
    }
}

/// Writes what an event that stands in no image and needs no renderer
/// puts out.
fn emit_unfolded(
    stack: &Vec<Construct>,
    depth: Option<usize>,
    out: &mut Vec<char>,
    event: &MarkupEvent,
)
    ensures
        final(out)@ == unfolded(construct_views(stack@), depth_view(depth), old(out)@, event@),
{
    match event {
        MarkupEvent::Start(construct) => emit_start(stack, depth, out, construct),
        MarkupEvent::End(construct) => emit_end(stack, depth, out, construct),
        MarkupEvent::Text(text) => write_text(stack, out, text),
        MarkupEvent::InlineCode(code) => {
            pop_double_space(out);
            push_str(out, "`");
            push_str(out, code.as_str());
            push_str(out, "`");
            push_str(out, " ");
        },
        MarkupEvent::RawMarkup(markup) => {
            push_str(out, markup.as_str());
        },
        _ => {},
    }
}

/// Tells whether `event` can stand inside the open constructs.
fn stack_allows(stack: &Vec<Construct>, event: &MarkupEvent) -> (allowed: bool)
    ensures
        allowed == next_stack(construct_views(stack@), event@) is Some,
{
    if inside_image(stack) {
        return true;
    }
    match event {
        MarkupEvent::Start(Construct::Item) => match top_of(stack) {
            Some(Construct::List(_)) => true,
            _ => false,
        },
        MarkupEvent::End(Construct::TableHead) => match top_of(stack) {
            Some(Construct::Table(_)) => true,
            _ => false,
        },
        _ => true,
    }
}

/// Tells whether the innermost open construct is a block quote.
fn in_block_quote(stack: &Vec<Construct>) -> (quoted: bool)
    ensures
        quoted == (top(construct_views(stack@)) == Some(ConstructView::BlockQuote)),
{
    match top_of(stack) {
        Some(Construct::BlockQuote) => true,
        _ => false,
    }
}

/// Opens or closes what `event` opens or closes.
fn advance_stack(stack: &mut Vec<Construct>, event: &MarkupEvent)
    requires
        next_stack(construct_views(old(stack)@), event@) is Some,
    ensures
        Some(construct_views(final(stack)@)) == next_stack(construct_views(old(stack)@), event@),
{
    if inside_image(stack) {
        match event {
            MarkupEvent::Start(Construct::Image(destination)) => {
                push_construct(stack, Construct::Image(destination.clone()));
            },
            MarkupEvent::End(Construct::Image(_)) => {
                pop_construct(stack);
            },
            _ => {},
        }
    } else {
        advance_unfolded(stack, event);
    }
}

/// Opens or closes what an event that stands in no image opens or
/// closes.
fn advance_unfolded(stack: &mut Vec<Construct>, event: &MarkupEvent)
    requires
        unfolded_stack(construct_views(old(stack)@), event@) is Some,
    ensures
        Some(construct_views(final(stack)@)) == unfolded_stack(
            construct_views(old(stack)@),
            event@,
        ),
{
    match event {
        MarkupEvent::Start(construct) => match construct {
            Construct::Paragraph => {
                if !in_block_quote(stack) {
                    push_construct(stack, construct.duplicate());
                }
            },
            Construct::Item => {
                let ordered = match top_of(stack) {
                    Some(Construct::List(Some(n))) => Some(*n),
                    _ => None,
                };
                if let Some(n) = ordered {
                    let next = if n < u64::MAX {
                        n + 1
                    } else {
                        n
                    };
                    pop_construct(stack);
                    push_construct(stack, Construct::List(Some(next)));
                }
            },
            Construct::TableHead | Construct::TableRow | Construct::TableCell => {},
            _ => {
                push_construct(stack, construct.duplicate());
            },
        },
        MarkupEvent::End(construct) => match construct {
            Construct::Paragraph => {
                if !in_block_quote(stack) {
                    pop_construct(stack);
                }
            },
            Construct::TableHead | Construct::TableRow | Construct::TableCell | Construct::Item
            | Construct::Image(_) => {},
            _ => {
                pop_construct(stack);
            },
        },
        _ => {},
    }
}

/// Tells whether `event` is the text of a diagram description.
fn is_diagram_text(stack: &Vec<Construct>, event: &MarkupEvent) -> (diagram: bool)
    ensures
        diagram == wants_diagram(construct_views(stack@), event@),
{
    match event {
        MarkupEvent::Text(_) => match top_of(stack) {
            Some(Construct::CodeBlock(Some(info))) => same_text(info.as_str(), "dot"),
            _ => false,
        },
        _ => false,
    }
}

/// The graphics markup of a run of the diagram renderer, or the error
/// that the run stands for.
pub fn diagram_markup(output: &DiagramOutput) -> (markup: Result<String, RenderError>)
    ensures
        match outcome(*output) {
            Ok(text) => markup matches Ok(m) && m@ == text,
            Err(error) => markup matches Err(e) && e@ == error,
        },
{
    if output.success {
        match decode(&output.stdout) {
            Some(text) => Ok(text),
            None => Err(RenderError::Encoding),
        }
    } else {
        match decode(&output.stderr) {
            Some(diagnostics) => Err(RenderError::Diagram(diagnostics)),
            None => Err(RenderError::Encoding),
        }
    }
}

/// The construct that `event` opens or closes.
fn event_construct(event: &MarkupEvent) -> (construct: Construct)
    ensures
        construct@ == construct_of(event@),
{
    match event {
        MarkupEvent::Start(construct) => construct.duplicate(),
        MarkupEvent::End(construct) => construct.duplicate(),
        _ => Construct::Paragraph,
    }
}

impl RenderState {
    /// The state before the first event.
    pub fn new() -> (state: RenderState)
        ensures
            state@ == initial(),
    {
        let state = RenderState {
            stack: Vec::new(),
            list_depth: None,
            recipient: Vec::new(),
            diagrams: 0,
        };
        assert(state@.stack =~= Seq::empty());
        state
    }

    /// Takes one event; the text of a diagram description takes the next
    /// of `outputs`.
    pub fn feed(
        &mut self,
        event: &MarkupEvent,
        outputs: &Vec<DiagramOutput>,
    ) -> (fed: Result<(), RenderError>)
        requires
            old(self).list_depth != Some(usize::MAX),
        ensures
            match step(old(self)@, event@, outputs@) {
                Ok(m) => fed is Ok && final(self)@ == m,
                Err(error) => fed matches Err(e) && e@ == error,
            },
    {
        if !stack_allows(&self.stack, event) {
            return Err(RenderError::UnknownConstruct(event_construct(event)));
        }
        if is_diagram_text(&self.stack, event) {
            if self.diagrams >= outputs.len() {
                return Err(RenderError::Diagram(String::new()));
            }
            match diagram_markup(&outputs[self.diagrams]) {
                Ok(markup) => {
                    push_str(&mut self.recipient, markup.as_str());
                    self.diagrams = self.diagrams + 1;
                },
                Err(error) => {
                    return Err(error);
                },
            }
        } else {
            emit(&self.stack, self.list_depth, &mut self.recipient, event);
            if !inside_image(&self.stack) {
                self.list_depth = advance_depth(self.list_depth, event);
            }
        }
        advance_stack(&mut self.stack, event);
        Ok(())
    }

    /// The output so far.
    pub fn finish(self) -> (text: String)
        ensures
            text@ == self@.out,
    {
        string_of(&self.recipient)
    }
}

/// The list depth counts one for each open list, so it stays below the
/// number of events taken.
pub open spec fn depth_below(depth: Option<nat>, n: nat) -> bool {
    match depth {
        Some(d) => d < n,
        None => true,
    }
}

/// The canonical text for the events of a body. `outputs` holds the
/// runs of the diagram renderer, one for each diagram description, in
/// their order.
pub fn render(
    events: &Vec<MarkupEvent>,
    outputs: &Vec<DiagramOutput>,
) -> (text: Result<String, RenderError>)
    ensures
        match canonical(event_views(events@), outputs@) {
            Ok(out) => text matches Ok(t) && t@ == out,
            Err(error) => text matches Err(e) && e@ == error,
        },
{
    let mut state = RenderState::new();
    let mut i: usize = 0;
    while i < events.len()
        invariant
            i <= events.len(),
            rendered(event_views(events@), outputs@, i as nat) == Ok::<
                RenderModel,
                RenderErrorView,
            >(state@),
            depth_below(state@.depth, i as nat),
        decreases events.len() - i,
    {
        assert(event_views(events@)[i as int] == events@[i as int]@);
        match state.feed(&events[i], outputs) {
            Ok(()) => {},
            Err(error) => {
                proof {
                    lemma_error_stays(event_views(events@), outputs@, (i + 1) as nat, events@.len());
                }
                return Err(error);
            },
        }
        i += 1;
    }
    Ok(state.finish())
}

/// Once an event has failed, every longer run of events fails alike.
pub proof fn lemma_error_stays(
    events: Seq<MarkupEventView>,
    outputs: Seq<DiagramOutput>,
    n: nat,
    m: nat,
)
    requires
        n <= m,
        rendered(events, outputs, n) is Err,
    ensures
        rendered(events, outputs, m) == rendered(events, outputs, n),
    decreases m,
{
    if n < m {
        lemma_error_stays(events, outputs, n, (m - 1) as nat);
    }
}

/// The options under which a body is tokenized for its canonical form.
pub const CANONICAL_OPTIONS: u32 = ENABLE_TABLES | ENABLE_STRIKETHROUGH;

/// The canonical text of the body `text`. `outputs` holds the runs of
/// the diagram renderer, one for each diagram description, in their
/// order.
pub fn enrich(text: &str, outputs: &Vec<DiagramOutput>) -> (canon: Result<String, RenderError>)
    ensures
        match canonical(markdown_events(text@, CANONICAL_OPTIONS), outputs@) {
            Ok(out) => canon matches Ok(t) && t@ == out,
            Err(error) => canon matches Err(e) && e@ == error,
        },
{
    let events = tokenize(text, CANONICAL_OPTIONS);
    render(&events, outputs)
}

/// The views of `texts`, in order.
pub open spec fn text_views(texts: Seq<String>) -> Seq<Seq<char>> {
    Seq::new(texts.len(), |i: int| texts[i]@)
}

/// The open constructs after the first `n` events, or nothing where one
/// of them could not stand where it stood.
pub open spec fn stack_after(events: Seq<MarkupEventView>, n: nat) -> Option<Seq<ConstructView>>
    decreases n,
{
    if n == 0 {
        Some(Seq::empty())
    } else {
        match stack_after(events, (n - 1) as nat) {
            Some(stack) => next_stack(stack, events[n - 1]),
            None => None,
        }
    }
}

/// The text of a text event.
pub open spec fn event_text(event: MarkupEventView) -> Seq<char> {
    match event {
        MarkupEventView::Text(text) => text,
        _ => Seq::empty(),
    }
}

/// The diagram descriptions among the first `n` events, in order: what
/// the renderer is to be run on.
pub open spec fn sources(events: Seq<MarkupEventView>, n: nat) -> Seq<Seq<char>>
    decreases n,
{
    if n == 0 {
        Seq::empty()
    } else {
        let before = sources(events, (n - 1) as nat);
        match stack_after(events, (n - 1) as nat) {
            Some(stack) => if wants_diagram(stack, events[n - 1]) {
                before.push(event_text(events[n - 1]))
            } else {
                before
            },
            None => before,
        }
    }
}

/// Behind an event that could not stand where it stood no diagram
/// description counts.
pub proof fn lemma_sources_stay(events: Seq<MarkupEventView>, n: nat, m: nat)
    requires
        n <= m,
        stack_after(events, n) is None,
    ensures
        stack_after(events, m) is None,
        sources(events, m) == sources(events, n),
    decreases m,
{
    if n < m {
        lemma_sources_stay(events, n, (m - 1) as nat);
    }
}

/// The diagram descriptions among `events`, in order.
pub fn diagram_sources_in(events: &Vec<MarkupEvent>) -> (found: Vec<String>)
    ensures
        text_views(found@) == sources(event_views(events@), events@.len()),
{
    let mut stack: Vec<Construct> = Vec::new();
    let mut found: Vec<String> = Vec::new();
    let mut i: usize = 0;
    assert(construct_views(stack@) =~= Seq::empty());
    assert(text_views(found@) =~= Seq::empty());
    while i < events.len()
        invariant
            i <= events.len(),
            stack_after(event_views(events@), i as nat) == Some(construct_views(stack@)),
            text_views(found@) == sources(event_views(events@), i as nat),
        decreases events.len() - i,
    {
        assert(event_views(events@)[i as int] == events@[i as int]@);
        if !stack_allows(&stack, &events[i]) {
            proof {
                lemma_sources_stay(event_views(events@), (i + 1) as nat, events@.len());
            }
            return found;
        }
        if is_diagram_text(&stack, &events[i]) {
            if let MarkupEvent::Text(text) = &events[i] {
                let ghost before = found@;
                found.push(text.clone());
                assert(text_views(found@) =~= text_views(before).push(text@));
            }
        }
        advance_stack(&mut stack, &events[i]);
        i += 1;
    }
    found
}

/// The diagram descriptions of the body `text`, in order.
pub fn diagram_sources(text: &str) -> (found: Vec<String>)
    ensures
        text_views(found@) == sources(
            markdown_events(text@, CANONICAL_OPTIONS),
            markdown_events(text@, CANONICAL_OPTIONS).len(),
        ),
{
    let events = tokenize(text, CANONICAL_OPTIONS);
    diagram_sources_in(&events)
}

/// The events of a fenced diagram description with the text `source`.
pub open spec fn diagram_block(source: Seq<char>) -> Seq<MarkupEventView> {
    seq![
        MarkupEventView::Start(ConstructView::CodeBlock(Some(dot_info()))),
        MarkupEventView::Text(source),
        MarkupEventView::End(ConstructView::CodeBlock(Some(dot_info()))),
    ]
}

/// A diagram description whose run of the renderer succeeded becomes
/// the renderer's markup between the tags of the diagram wrapper.
pub proof fn lemma_diagram_block(source: Seq<char>, output: DiagramOutput)
    requires
        output.success,
        valid_utf8(output.stdout@),
    ensures
        canonical(diagram_block(source), seq![output]) == Ok::<Seq<char>, RenderErrorView>(
            Seq::<char>::empty() + code_opening(Some(dot_info())) + decode_utf8(output.stdout@)
                + "</div>\n"@,
        ),
        code_opening(Some(dot_info())) == "\n"@ + "\n<div class=\"figure from-dot\">"@ + "\n"@,
{
    let events = diagram_block(source);
    let outputs = seq![output];
    let block = ConstructView::CodeBlock(Some(dot_info()));
    reveal_with_fuel(rendered, 4);
    let first = rendered(events, outputs, 1);
    assert(first is Ok);
    assert(first->Ok_0.stack =~= seq![block]);
    assert(wants_diagram(first->Ok_0.stack, events[1]));
    let second = rendered(events, outputs, 2);
    assert(second is Ok);
    assert(second->Ok_0.stack =~= seq![block]);
    assert(!wants_diagram(second->Ok_0.stack, events[2]));
    let third = rendered(events, outputs, 3);
    assert(third is Ok);
}

/// A diagram description whose run of the renderer failed fails the
/// rendering with the renderer's diagnostics.
pub proof fn lemma_diagram_failure(source: Seq<char>, output: DiagramOutput)
    requires
        !output.success,
        valid_utf8(output.stderr@),
    ensures
        canonical(diagram_block(source), seq![output]) == Err::<Seq<char>, RenderErrorView>(
            RenderErrorView::Diagram(decode_utf8(output.stderr@)),
        ),
{
    let events = diagram_block(source);
    let outputs = seq![output];
    let block = ConstructView::CodeBlock(Some(dot_info()));
    reveal_with_fuel(rendered, 4);
    let first = rendered(events, outputs, 1);
    assert(first is Ok);
    assert(first->Ok_0.stack =~= seq![block]);
    assert(wants_diagram(first->Ok_0.stack, events[1]));
}

/// Inside an image an event changes nothing but the open images: the
/// output, the list depth and the runs used up stay as they are, and
/// unless the event closes the image, the state stays inside it.
pub proof fn lemma_image_hides(m: RenderModel, event: MarkupEventView, outputs: Seq<DiagramOutput>)
    requires
        in_image(m.stack),
        !(event matches MarkupEventView::End(ConstructView::Image(_))),
    ensures
        step(m, event, outputs) matches Ok(next) && next.out == m.out && next.depth == m.depth
            && next.used == m.used && in_image(next.stack) && (!(event
            matches MarkupEventView::Start(ConstructView::Image(_))) ==> next.stack == m.stack),
{
}

/// The events of an image: its start, what is nested in it, its end.
pub open spec fn image_events(destination: Seq<char>, nested: Seq<MarkupEventView>) -> Seq<
    MarkupEventView,
> {
    seq![MarkupEventView::Start(ConstructView::Image(destination))] + nested
        + seq![MarkupEventView::End(ConstructView::Image(destination))]
}

/// No event of `nested` opens or closes an image.
pub open spec fn without_images(nested: Seq<MarkupEventView>) -> bool {
    forall|i: int|
        0 <= i < nested.len() ==> !(#[trigger] nested[i] matches MarkupEventView::Start(
            ConstructView::Image(_),
        )) && !(nested[i] matches MarkupEventView::End(ConstructView::Image(_)))
}

/// The state after the start of an image and the first `k` of the events
/// nested in it: the image is open and only its own mark is written.
proof fn lemma_image_open(
    destination: Seq<char>,
    nested: Seq<MarkupEventView>,
    outputs: Seq<DiagramOutput>,
    k: nat,
)
    requires
        without_images(nested),
        k <= nested.len(),
    ensures
        rendered(image_events(destination, nested), outputs, k + 1) == Ok::<
            RenderModel,
            RenderErrorView,
        >(
            RenderModel {
                stack: seq![ConstructView::Image(destination)],
                depth: None,
                out: Seq::<char>::empty() + "![]("@ + destination + ")"@,
                used: 0,
            },
        ),
    decreases k,
{
    let events = image_events(destination, nested);
    let image = ConstructView::Image(destination);
    if k == 0 {
        reveal_with_fuel(rendered, 2);
        assert(events[0] == MarkupEventView::Start(image));
        assert(rendered(events, outputs, 1)->Ok_0.stack =~= seq![image]);
    } else {
        lemma_image_open(destination, nested, outputs, (k - 1) as nat);
        let before = rendered(events, outputs, k)->Ok_0;
        assert(events[k as int] == nested[k - 1]);
        assert(in_image(before.stack));
        lemma_image_hides(before, events[k as int], outputs);
    }
}

/// Nothing that is nested in an image is rendered: whatever stands
/// between its start and its end, the image is its mark with the
/// destination, and one space behind it.
pub proof fn lemma_image_alone(
    destination: Seq<char>,
    nested: Seq<MarkupEventView>,
    outputs: Seq<DiagramOutput>,
)
    requires
        without_images(nested),
    ensures
        canonical(image_events(destination, nested), outputs) == Ok::<Seq<char>, RenderErrorView>(
            Seq::<char>::empty() + "![]("@ + destination + ")"@ + " "@,
        ),
{
    let events = image_events(destination, nested);
    lemma_image_open(destination, nested, outputs, nested.len());
    let before = rendered(events, outputs, nested.len() + 1)->Ok_0;
    let last = nested.len() as int + 1;
    assert(events.len() == last + 1);
    assert(events[last] == MarkupEventView::End(ConstructView::Image(destination)));
    assert(popped(before.stack) =~= Seq::<ConstructView>::empty());
    assert(rendered(events, outputs, events.len()) == step(before, events[last], outputs));
}

/// A text run that hugs neither neighbour: text remains when it is
/// trimmed, and that text neither begins with a mark that stands close
/// to what is before it nor ends with one that stands close to what is
/// behind it.
pub open spec fn is_plain_run(chunk: Seq<char>) -> bool {
    let text = trim(chunk);
    text.len() > 0 && !hugs_previous(text[0]) && !hugs_next(text.last())
}

/// The events of a paragraph whose text came in the runs `chunks`.
pub open spec fn paragraph_events(chunks: Seq<Seq<char>>) -> Seq<MarkupEventView> {
    seq![MarkupEventView::Start(ConstructView::Paragraph)] + Seq::new(
        chunks.len(),
        |i: int| MarkupEventView::Text(chunks[i]),
    ) + seq![MarkupEventView::End(ConstructView::Paragraph)]
}

/// The first `n` runs, each trimmed and with one space behind it.
pub open spec fn spaced(chunks: Seq<Seq<char>>, n: nat) -> Seq<char>
    decreases n,
{
    if n == 0 {
        Seq::empty()
    } else {
        spaced(chunks, (n - 1) as nat) + trim(chunks[n - 1]) + " "@
    }
}

/// The state after the start of a paragraph and the first `k` of its
/// runs.
proof fn lemma_paragraph_open(chunks: Seq<Seq<char>>, outputs: Seq<DiagramOutput>, k: nat)
    requires
        k <= chunks.len(),
        forall|i: int| 0 <= i < chunks.len() ==> is_plain_run(#[trigger] chunks[i]),
    ensures
        rendered(paragraph_events(chunks), outputs, k + 1) == Ok::<RenderModel, RenderErrorView>(
            RenderModel {
                stack: seq![ConstructView::Paragraph],
                depth: None,
                out: "\n"@ + spaced(chunks, k),
                used: 0,
            },
        ),
    decreases k,
{
    let events = paragraph_events(chunks);
    if k == 0 {
        reveal_with_fuel(rendered, 2);
        assert(events[0] == MarkupEventView::Start(ConstructView::Paragraph));
        let first = rendered(events, outputs, 1)->Ok_0;
        assert(first.stack =~= seq![ConstructView::Paragraph]);
        assert(first.out =~= "\n"@ + spaced(chunks, 0));
    } else {
        lemma_paragraph_open(chunks, outputs, (k - 1) as nat);
        let before = rendered(events, outputs, k)->Ok_0;
        assert(events[k as int] == MarkupEventView::Text(chunks[k - 1]));
        assert(is_plain_run(chunks[k - 1]));
        let after = step(before, events[k as int], outputs)->Ok_0;
        assert(after.out =~= "\n"@ + spaced(chunks, k));
    }
}

/// A paragraph holds its text with one space between each two runs,
/// however the text was split into runs: where every run hugs neither
/// neighbour, the canonical text is a line break, the trimmed runs with
/// one space between them, and a line break.
pub proof fn lemma_paragraph_of_runs(chunks: Seq<Seq<char>>, outputs: Seq<DiagramOutput>)
    requires
        chunks.len() > 0,
        forall|i: int| 0 <= i < chunks.len() ==> is_plain_run(#[trigger] chunks[i]),
    ensures
        canonical(paragraph_events(chunks), outputs) == Ok::<Seq<char>, RenderErrorView>(
            "\n"@ + spaced(chunks, chunks.len()).drop_last() + "\n"@,
        ),
{
    let events = paragraph_events(chunks);
    lemma_paragraph_open(chunks, outputs, chunks.len());
    let before = rendered(events, outputs, chunks.len() + 1)->Ok_0;
    let last = chunks.len() as int + 1;
    assert(events.len() == last + 1);
    assert(events[last] == MarkupEventView::End(ConstructView::Paragraph));
    reveal_strlit(" ");
    let words = spaced(chunks, chunks.len());
    assert(words.len() > 0 && words.last() == ' ');
    assert(before.out.last() == ' ');
    assert(drop_space(before.out) =~= "\n"@ + words.drop_last());
    assert(rendered(events, outputs, events.len()) == step(before, events[last], outputs));
}

} // verus!
