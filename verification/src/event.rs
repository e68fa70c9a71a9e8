//! The structural events of a Markdown document.

use crate::level::HeadingLevel;
use pulldown_cmark::CodeBlockKind::Fenced;
use pulldown_cmark::Event::{End, Start, Text};
use pulldown_cmark::HeadingLevel::{H1, H2, H3, H4, H5, H6};
use pulldown_cmark::Tag::{CodeBlock, Heading};
use pulldown_cmark::{Options, Parser};
use std::ops::Range;
use vstd::prelude::*;
use vstd::string::StringSliceAdditionalSpecFns;

verus! {

/// What an event stands for. Only headings, fenced code blocks and text are
/// told apart; every other construct of a document is `Other`.
#[derive(Clone, Debug, PartialEq, Eq)]
pub enum Token {
    /// The start of a heading of the given level.
    HeadingStart(HeadingLevel),
    /// The end of a heading.
    HeadingEnd,
    /// The start of a fenced code block, with its raw language tag.
    CodeStart(String),
    /// The end of a fenced code block.
    CodeEnd,
    /// A run of text.
    Text(String),
    /// Anything else.
    Other,
}

/// A range of bytes of the source text: `start` is its first byte, `end`
/// the first byte behind it.
#[derive(Clone, Copy, Debug, PartialEq, Eq, Structural, PartialOrd, Ord, Hash)]
pub struct Span {
    pub start: usize,
    pub end: usize,
}

impl Span {
    /// Whether the range is one of a text of `len` bytes: it does not end
    /// before it starts, nor behind the text.
    pub open spec fn within(self, len: int) -> bool {
        self.start <= self.end <= len
    }
}

/// A structural event together with the range of the source text that it
/// came from.
#[derive(Clone, Debug, PartialEq, Eq)]
pub struct Event {
    pub token: Token,
    pub span: Span,
}

/// The mathematical value of a [`Token`].
pub enum TokenView {
    HeadingStart(HeadingLevel),
    HeadingEnd,
    CodeStart(Seq<char>),
    CodeEnd,
    Text(Seq<char>),
    Other,
}

/// The mathematical value of an [`Event`].
pub struct EventView {
    pub token: TokenView,
    pub span: Span,
}

impl View for Token {
    type V = TokenView;

    open spec fn view(&self) -> TokenView {
        match self {
            Token::HeadingStart(level) => TokenView::HeadingStart(*level),
            Token::HeadingEnd => TokenView::HeadingEnd,
            Token::CodeStart(tag) => TokenView::CodeStart(tag@),
            Token::CodeEnd => TokenView::CodeEnd,
            Token::Text(body) => TokenView::Text(body@),
            Token::Other => TokenView::Other,
        }
    }
}

impl View for Event {
    type V = EventView;

    open spec fn view(&self) -> EventView {
        EventView { token: self.token@, span: self.span }
    }
}

/// The values of a sequence of events, in order.
pub open spec fn events_view(events: Seq<Event>) -> Seq<EventView> {
    Seq::new(events.len(), |i: int| events[i]@)
}

/// The events that the CommonMark tokenizer of `pulldown_cmark`, with every
/// extension switched on, reads from a document, in document order.
pub uninterp spec fn markdown_events(text: Seq<char>) -> Seq<EventView>;

/// Runs the CommonMark tokenizer with every extension switched on:
/// `pulldown_cmark::Parser::new_ext` with `Options::all()`, read through
/// `into_offset_iter`. Each event is reduced to the constructs that this
/// library tells apart and keeps the byte range that the tokenizer reports
/// for it. The tokenizer is a function of the text alone; what it yields is
/// not described here but named [`markdown_events`]. Of the ranges it is
/// taken on trust what the tokenizer documents, that each is the range of
/// its event in the source text, and what it asserts of itself, that none
/// ends before it starts.
#[verifier::external_body]
pub(crate) fn tokenize(text: &str) -> (events: Vec<Event>)
    ensures
        events_view(events@) == markdown_events(text@),
        spans_within(events_view(events@), text.spec_bytes().len() as int),
{
    Parser::new_ext(text, Options::all()).into_offset_iter().map(|(event, Range { start, end })| Event {
        token: match event {
            Start(Heading(level, ..)) => Token::HeadingStart(match level {
                H1 => HeadingLevel::H1, H2 => HeadingLevel::H2, H3 => HeadingLevel::H3,
                H4 => HeadingLevel::H4, H5 => HeadingLevel::H5, H6 => HeadingLevel::H6,
            }),
            End(Heading(..)) => Token::HeadingEnd,
            Start(CodeBlock(Fenced(tag))) => Token::CodeStart(tag.into_string()),
            End(CodeBlock(Fenced(_))) => Token::CodeEnd,
            Text(body) => Token::Text(body.into_string()),
            _ => Token::Other,
        }, span: Span { start, end },
    }).collect()
}

/// Whether every event's range is one of a text of `len` bytes.
pub open spec fn spans_within(events: Seq<EventView>, len: int) -> bool {
    forall|i: int| 0 <= i < events.len() ==> (#[trigger] events[i]).span.within(len)
}

/// Tests whether every event's range is one of a text of `len` bytes, as
/// the section machine asks of the events it is run over.
pub fn within(events: &Vec<Event>, len: usize) -> (r: bool)
    ensures
        r == spans_within(events_view(events@), len as int),
{
    let mut i: usize = 0;
    while i < events.len()
        invariant
            i <= events.len(),
            forall|j: int| 0 <= j < i ==> (#[trigger] events_view(events@)[j]).span.within(len as int),
        decreases events.len() - i,
    {
        let span = events[i].span;
        if !(span.start <= span.end && span.end <= len) {
            assert(!events_view(events@)[i as int].span.within(len as int));
            return false;
        }
        i += 1;
    }
    true
}

} // verus!
