//! Plain text: a markup body without its marks.

use crate::markdown::event::{Construct, ConstructView, MarkupEvent, MarkupEventView, event_views};
use crate::markdown::tokenizer::{ENABLE_ALL, markdown_events, tokenize};
use crate::text::{chars_of, push_str, string_of, trim, trim_of};
use vstd::prelude::*;

verus! {

/// A construct that leaves no trace in plain text.
pub open spec fn is_transparent(construct: ConstructView) -> bool {
    ||| construct is Emphasis
    ||| construct is Link
    ||| construct is Strikethrough
    ||| construct is Strong
    ||| construct is BlockQuote
}

/// What opens raw markup.
pub open spec fn opens_markup(markup: Seq<char>) -> bool {
    markup.len() > 0 && markup[0] == '<'
}

/// The plain text after one event: inline code behind a space, text as
/// it is, raw markup unless it opens with a tag, nothing for the
/// transparent constructs, and a line break for everything else.
pub open spec fn plain_step(out: Seq<char>, event: MarkupEventView) -> Seq<char> {
    match event {
        MarkupEventView::InlineCode(code) => out.push(' ') + code,
        MarkupEventView::Text(text) => out + text,
        MarkupEventView::RawMarkup(markup) => if opens_markup(markup) {
            out
        } else {
            out + markup
        },
        MarkupEventView::Start(construct) => if is_transparent(construct) {
            out
        } else {
            out.push('\n')
        },
        MarkupEventView::End(construct) => if is_transparent(construct) {
            out
        } else {
            out.push('\n')
        },
        _ => out.push('\n'),
    }
}

/// The plain text of the first `n` events, untrimmed.
pub open spec fn plain(events: Seq<MarkupEventView>, n: nat) -> Seq<char>
    decreases n,
{
    if n == 0 {
        Seq::empty()
    } else {
        plain_step(plain(events, (n - 1) as nat), events[n - 1])
    }
}

/// The plain text of a body with the events `events`.
pub open spec fn stripped(events: Seq<MarkupEventView>) -> Seq<char> {
    trim(plain(events, events.len()))
}

/// Tells whether `construct` leaves no trace in plain text.
fn leaves_no_trace(construct: &Construct) -> (transparent: bool)
    ensures
        transparent == is_transparent(construct@),
{
    match construct {
        Construct::Emphasis | Construct::Link(_) | Construct::Strikethrough | Construct::Strong
        | Construct::BlockQuote => true,
        _ => false,
    }
}

/// Writes what `event` leaves in plain text.
fn write_plain(out: &mut Vec<char>, event: &MarkupEvent)
    ensures
        final(out)@ == plain_step(old(out)@, event@),
{
    match event {
        MarkupEvent::InlineCode(code) => {
            out.push(' ');
            push_str(out, code.as_str());
        },
        MarkupEvent::Text(text) => {
            push_str(out, text.as_str());
        },
        MarkupEvent::RawMarkup(markup) => {
            let chars = chars_of(markup.as_str());
            if !(chars.len() > 0 && chars[0] == '<') {
                push_str(out, markup.as_str());
            }
        },
        MarkupEvent::Start(construct) => {
            if !leaves_no_trace(construct) {
                out.push('\n');
            }
        },
        MarkupEvent::End(construct) => {
            if !leaves_no_trace(construct) {
                out.push('\n');
            }
        },
        _ => {
            out.push('\n');
        },
    }
}

/// The plain text for the events of a body.
pub fn strip_events(events: &Vec<MarkupEvent>) -> (text: String)
    ensures
        text@ == stripped(event_views(events@)),
{
    let mut out: Vec<char> = Vec::new();
    let mut i: usize = 0;
    while i < events.len()
        invariant
            i <= events.len(),
            out@ == plain(event_views(events@), i as nat),
        decreases events.len() - i,
    {
        assert(event_views(events@)[i as int] == events@[i as int]@);
        write_plain(&mut out, &events[i]);
        i += 1;
    }
    string_of(&trim_of(&out))
}

/// The plain text of the body `text`.
pub fn strip(text: &str) -> (plain_text: String)
    ensures
        plain_text@ == stripped(markdown_events(text@, ENABLE_ALL)),
{
    let events = tokenize(text, ENABLE_ALL);
    strip_events(&events)
}

/// An event of running text: a text run, a tag of raw markup, or the
/// start or the end of a construct that leaves no trace.
pub open spec fn is_inline(event: MarkupEventView) -> bool {
    match event {
        MarkupEventView::Text(_) => true,
        MarkupEventView::RawMarkup(markup) => opens_markup(markup),
        MarkupEventView::Start(construct) => is_transparent(construct),
        MarkupEventView::End(construct) => is_transparent(construct),
        _ => false,
    }
}

/// The text of a text run; nothing for every other event.
pub open spec fn run_text(event: MarkupEventView) -> Seq<char> {
    match event {
        MarkupEventView::Text(text) => text,
        _ => Seq::empty(),
    }
}

/// The text runs among the first `n` events, joined in their order.
pub open spec fn text_runs(events: Seq<MarkupEventView>, n: nat) -> Seq<char>
    decreases n,
{
    if n == 0 {
        Seq::empty()
    } else {
        text_runs(events, (n - 1) as nat) + run_text(events[n - 1])
    }
}

/// Of running text only the text runs remain: where every event is a
/// text run, a tag of raw markup or the start or end of a construct
/// that leaves no trace, the plain text is the text runs joined in
/// their order, so that no tag and no mark enters it.
pub proof fn lemma_plain_of_inline(events: Seq<MarkupEventView>, n: nat)
    requires
        n <= events.len(),
        forall|i: int| 0 <= i < n ==> is_inline(#[trigger] events[i]),
    ensures
        plain(events, n) == text_runs(events, n),
    decreases n,
{
    if n > 0 {
        lemma_plain_of_inline(events, (n - 1) as nat);
        let before = plain(events, (n - 1) as nat);
        assert(is_inline(events[n - 1]));
        assert(plain_step(before, events[n - 1]) =~= before + run_text(events[n - 1]));
    }
}

} // verus!
