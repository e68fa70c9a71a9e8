//! Extraction of the sections that matching headings open.
//!
//! A section reaches from its heading to the next heading of the same or a
//! shallower level. While a section is open, every event is written out as
//! the bytes of the source text that it came from, followed by a newline.
//! An event that starts before the end of what was written last is passed
//! over: events nest, and the bytes of an inner event were written with
//! the outer one.

use crate::event::{events_view, markdown_events, spans_within, tokenize};
use crate::event::{Event, EventView, Span, Token, TokenView};
use crate::heading::HeadingMatcher;
use crate::level::HeadingLevel;
use crate::text::{normalize, normalized};
use vstd::prelude::*;
use vstd::slice::slice_subrange;
use vstd::string::StringSliceAdditionalSpecFns;
use vstd::utf8::encode_utf8;

verus! {

/// The byte that follows every excerpt in the output.
pub const NEWLINE: u8 = 10;

/// Where the search for sections stands.
#[derive(Clone, Copy, Debug, PartialEq, Eq, Structural, PartialOrd, Ord, Hash)]
pub enum QuoteState {
    /// A heading of this level has started at this range and its text is
    /// awaited, to decide whether its section is included.
    Candidate(HeadingLevel, Span),
    /// The section of the heading of this level, which started at this
    /// range, is being written out.
    Printing(HeadingLevel, Span),
    /// No section is open and no heading is being looked at.
    Searching,
}

/// Whether the event is a heading that ends the section being written out.
pub open spec fn closes_section(state: QuoteState, event: EventView) -> bool {
    &&& state matches QuoteState::Printing(opened, _)
    &&& event.token matches TokenView::HeadingStart(level)
    &&& level.spec_closes(opened)
}

/// The state that follows `state` on `event`.
pub open spec fn next_state<M: HeadingMatcher + ?Sized>(
    state: QuoteState,
    event: EventView,
    matcher: &M,
) -> QuoteState {
    match state {
        QuoteState::Searching => match event.token {
            TokenView::HeadingStart(level) => QuoteState::Candidate(level, event.span),
            _ => QuoteState::Searching,
        },
        QuoteState::Candidate(level, excerpt) => match event.token {
            TokenView::Text(body) => if matcher.selects(level, normalized(body)) {
                QuoteState::Printing(level, excerpt)
            } else {
                QuoteState::Searching
            },
            _ => QuoteState::Searching,
        },
        QuoteState::Printing(opened, _) => match event.token {
            TokenView::HeadingStart(level) => if level.spec_closes(opened) {
                QuoteState::Candidate(level, event.span)
            } else {
                state
            },
            _ => state,
        },
    }
}

/// Whether `event` is written out: a section is open, the event does not
/// end it, and the event starts at the cursor or behind it.
pub open spec fn emits(state: QuoteState, event: EventView, cursor: int) -> bool {
    &&& state is Printing
    &&& !closes_section(state, event)
    &&& cursor <= event.span.start
}

/// A run of the section machine over some events: where it stands, the
/// cursor (the end of the range written last), the bytes of source text
/// written so far, and the output so far.
pub struct QuoteRun {
    pub state: QuoteState,
    pub cursor: int,
    pub bytes: int,
    pub output: Seq<u8>,
}

/// A run before its first event.
pub open spec fn initial_run() -> QuoteRun {
    QuoteRun { state: QuoteState::Searching, cursor: 0, bytes: 0, output: Seq::empty() }
}

/// The run that follows `run` on `event`: the state moves as [`next_state`]
/// says, and an event that is written out adds its excerpt and a newline to
/// the output, its length to the count, and moves the cursor to its end.
pub open spec fn step<M: HeadingMatcher + ?Sized>(
    run: QuoteRun,
    event: EventView,
    source: Seq<u8>,
    matcher: &M,
) -> QuoteRun {
    let state = next_state(run.state, event, matcher);
    if emits(run.state, event, run.cursor) {
        QuoteRun {
            state,
            cursor: event.span.end as int,
            bytes: run.bytes + (event.span.end - event.span.start),
            output: run.output + source.subrange(event.span.start as int, event.span.end as int)
                + seq![NEWLINE],
        }
    } else {
        QuoteRun { state, ..run }
    }
}

/// The run over all of `events`, in order, from [`initial_run`].
pub open spec fn quote_run<M: HeadingMatcher + ?Sized>(
    events: Seq<EventView>,
    source: Seq<u8>,
    matcher: &M,
) -> QuoteRun
    decreases events.len(),
{
    if events.len() == 0 {
        initial_run()
    } else {
        step(quote_run(events.drop_last(), source, matcher), events.last(), source, matcher)
    }
}

/// Moves the section machine over one event: the state that follows
/// `state` on `event`.
pub fn advance<M: HeadingMatcher + ?Sized>(state: QuoteState, event: &Event, matcher: &M) -> (next:
    QuoteState)
    ensures
        next == next_state(state, event@, matcher),
{
    match state {
        QuoteState::Searching => match &event.token {
            Token::HeadingStart(level) => QuoteState::Candidate(*level, event.span),
            _ => QuoteState::Searching,
        },
        QuoteState::Candidate(level, excerpt) => match &event.token {
            Token::Text(body) => if matcher.matches(level, normalize(body.as_str())) {
                QuoteState::Printing(level, excerpt)
            } else {
                QuoteState::Searching
            },
            _ => QuoteState::Searching,
        },
        QuoteState::Printing(opened, _) => match &event.token {
            Token::HeadingStart(level) => if level.closes(opened) {
                QuoteState::Candidate(*level, event.span)
            } else {
                state
            },
            _ => state,
        },
    }
}

/// Tests whether `event` is written out in `state` with the cursor at
/// `cursor`.
pub fn writes(state: QuoteState, event: &Event, cursor: usize) -> (r: bool)
    ensures
        r == emits(state, event@, cursor as int),
{
    match state {
        QuoteState::Printing(opened, _) => {
            let closing = match &event.token {
                Token::HeadingStart(level) => level.closes(opened),
                _ => false,
            };
            !closing && cursor <= event.span.start
        },
        _ => false,
    }
}

/// Runs the section machine over `events`, which were read from `source`,
/// and appends what it writes to `output`. Returns the number of bytes of
/// source text written, the newlines not counted.
pub fn quote_events<M: HeadingMatcher + ?Sized>(
    source: &[u8],
    events: &Vec<Event>,
    output: &mut Vec<u8>,
    matcher: &M,
) -> (bytes: usize)
    requires
        spans_within(events_view(events@), source@.len() as int),
    ensures
        final(output)@ == old(output)@ + quote_run(events_view(events@), source@, matcher).output,
        bytes == quote_run(events_view(events@), source@, matcher).bytes,
{
    let ghost views = events_view(events@);
    let ghost before = output@;
    let mut state = QuoteState::Searching;
    let mut cursor: usize = 0;
    let mut bytes: usize = 0;
    let mut i: usize = 0;
    assert(views.take(0) =~= Seq::<EventView>::empty());
    while i < events.len()
        invariant
            i <= events.len(),
            views == events_view(events@),
            spans_within(views, source@.len() as int),
            bytes <= cursor <= source@.len(),
            state == quote_run(views.take(i as int), source@, matcher).state,
            cursor == quote_run(views.take(i as int), source@, matcher).cursor,
            bytes == quote_run(views.take(i as int), source@, matcher).bytes,
            output@ == before + quote_run(views.take(i as int), source@, matcher).output,
        decreases events.len() - i,
    {
        let event = &events[i];
        proof {
            assert(views.take(i + 1).drop_last() =~= views.take(i as int));
            assert(views[i as int].span.within(source@.len() as int));
        }
        if writes(state, event, cursor) {
            let excerpt = slice_subrange(source, event.span.start, event.span.end);
            let ghost written = output@;
            output.extend_from_slice(excerpt);
            output.push(NEWLINE);
            assert(output@ =~= written + excerpt@ + seq![NEWLINE]);
            bytes = bytes + excerpt.len();
            cursor = event.span.end;
        }
        state = advance(state, event, matcher);
        i += 1;
    }
    assert(views.take(i as int) =~= views);
    bytes
}

/// Writes out the sections of a document that `matcher` selects: the
/// document is read as events, and the section machine is run over them.
/// The bytes are appended to `output`.
///
/// Returns the number of bytes of source text among them, the newlines not
/// counted.
pub fn quote<M: HeadingMatcher + ?Sized>(input: &str, output: &mut Vec<u8>, matcher: &M) -> (bytes:
    usize)
    ensures
        final(output)@ == old(output)@ + quote_run(
            markdown_events(input@),
            input.spec_bytes(),
            matcher,
        ).output,
        bytes == quote_run(markdown_events(input@), input.spec_bytes(), matcher).bytes,
{
    let events = tokenize(input);
    quote_events(input.as_bytes(), &events, output, matcher)
}

/// Quoting is a function of the document and the matcher: two runs over
/// one document with one matcher, appended to the same bytes, give the same
/// output and the same count.
pub proof fn lemma_quote_deterministic<M: HeadingMatcher + ?Sized>(
    input: Seq<char>,
    matcher: &M,
    before: Seq<u8>,
    first_output: Seq<u8>,
    first_bytes: usize,
    second_output: Seq<u8>,
    second_bytes: usize,
)
    requires
        first_output == before + quote_run(
            markdown_events(input),
            encode_utf8(input),
            matcher,
        ).output,
        first_bytes == quote_run(markdown_events(input), encode_utf8(input), matcher).bytes,
        second_output == before + quote_run(
            markdown_events(input),
            encode_utf8(input),
            matcher,
        ).output,
        second_bytes == quote_run(markdown_events(input), encode_utf8(input), matcher).bytes,
    ensures
        first_output == second_output,
        first_bytes == second_bytes,
{
}

/// A section is opened by the text of a heading and by nothing else: the
/// machine prints after an event only if it printed before it, or if it
/// was looking at a heading, the event is a text, and the matcher selects
/// the heading with that text. A heading that is followed by anything but
/// a text is given up.
pub proof fn lemma_section_opens_on_heading_text<M: HeadingMatcher + ?Sized>(
    state: QuoteState,
    event: EventView,
    matcher: &M,
)
    ensures
        next_state(state, event, matcher) is Printing ==> {
            ||| state is Printing
            ||| {
                &&& state matches QuoteState::Candidate(level, _)
                &&& event.token matches TokenView::Text(body)
                &&& matcher.selects(level, normalized(body))
            }
        },
        state is Candidate && !(event.token is Text) ==> next_state(state, event, matcher)
            == QuoteState::Searching,
{
}

/// A section ends at the next heading that is as shallow as its own, or
/// shallower, and that heading is not written as part of it. A deeper
/// heading leaves the section open and belongs to it.
pub proof fn lemma_section_scope<M: HeadingMatcher + ?Sized>(
    opened: HeadingLevel,
    excerpt: Span,
    event: EventView,
    cursor: int,
    matcher: &M,
)
    requires
        event.token is HeadingStart,
    ensures
        event.token->HeadingStart_0.spec_rank() <= opened.spec_rank() ==> {
            &&& next_state(QuoteState::Printing(opened, excerpt), event, matcher)
                == QuoteState::Candidate(event.token->HeadingStart_0, event.span)
            &&& !emits(QuoteState::Printing(opened, excerpt), event, cursor)
        },
        event.token->HeadingStart_0.spec_rank() > opened.spec_rank() ==> {
            &&& next_state(QuoteState::Printing(opened, excerpt), event, matcher)
                == QuoteState::Printing(opened, excerpt)
            &&& emits(QuoteState::Printing(opened, excerpt), event, cursor) == (cursor
                <= event.span.start)
        },
{
}

/// Where no event is a text, no section is ever opened and nothing is
/// written, whatever the matcher selects.
pub proof fn lemma_no_text_no_section<M: HeadingMatcher + ?Sized>(
    events: Seq<EventView>,
    source: Seq<u8>,
    matcher: &M,
)
    requires
        forall|i: int| 0 <= i < events.len() ==> !((#[trigger] events[i]).token is Text),
    ensures
        !(quote_run(events, source, matcher).state is Printing),
        quote_run(events, source, matcher).output == Seq::<u8>::empty(),
        quote_run(events, source, matcher).bytes == 0,
    decreases events.len(),
{
    if events.len() > 0 {
        lemma_no_text_no_section(events.drop_last(), source, matcher);
        assert(!(events[events.len() - 1].token is Text));
    }
}

/// The cursor never moves back, and an event is written only from the
/// cursor on: the ranges written out follow one another in the source
/// text and do not overlap.
pub proof fn lemma_cursor_advances<M: HeadingMatcher + ?Sized>(
    run: QuoteRun,
    event: EventView,
    source: Seq<u8>,
    matcher: &M,
)
    requires
        event.span.start <= event.span.end,
    ensures
        run.cursor <= step(run, event, source, matcher).cursor,
        run.bytes <= step(run, event, source, matcher).bytes,
        emits(run.state, event, run.cursor) ==> {
            &&& run.cursor <= event.span.start
            &&& step(run, event, source, matcher).cursor == event.span.end
        },
        !emits(run.state, event, run.cursor) ==> {
            &&& step(run, event, source, matcher).cursor == run.cursor
            &&& step(run, event, source, matcher).output == run.output
            &&& step(run, event, source, matcher).bytes == run.bytes
        },
{
}

/// Over events whose ranges are ranges of the source text, the count of a
/// run is at most its cursor, and the cursor lies in the source text: no
/// byte of the source is counted twice.
pub proof fn lemma_run_bounds<M: HeadingMatcher + ?Sized>(
    events: Seq<EventView>,
    source: Seq<u8>,
    matcher: &M,
)
    requires
        spans_within(events, source.len() as int),
    ensures
        0 <= quote_run(events, source, matcher).bytes <= quote_run(events, source, matcher).cursor
            <= source.len(),
        quote_run(events, source, matcher).output.len() >= quote_run(events, source, matcher).bytes,
    decreases events.len(),
{
    if events.len() > 0 {
        lemma_run_bounds(events.drop_last(), source, matcher);
        assert(events[events.len() - 1].span.within(source.len() as int));
    }
}

} // verus!
