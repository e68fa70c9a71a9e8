//! Extraction of the fenced code blocks that a matcher includes.
//!
//! A fenced block starts with its language tag. The matcher is asked once,
//! where the block starts, and is shown the tag, or nothing where the tag is
//! blank. The text inside an included block is written out byte for byte;
//! nothing else is.

use crate::event::{events_view, markdown_events, tokenize};
use crate::event::{Event, EventView, Token, TokenView};
use crate::matcher::{CodeMatcher, LanguageMatcher};
use crate::text::{is_blank, normalize, normalized};
use vstd::prelude::*;
use vstd::utf8::encode_utf8;

verus! {

/// Whether the event at index `at` lies inside a fenced block that the
/// matcher includes: of the starts and ends of fenced blocks before it, the
/// last is a start, and the matcher includes its tag.
pub open spec fn in_included_block<M: CodeMatcher + ?Sized>(
    events: Seq<EventView>,
    matcher: &M,
    at: int,
) -> bool
    decreases at,
{
    if at <= 0 {
        false
    } else {
        match events[at - 1].token {
            TokenView::CodeStart(tag) => matcher.includes(normalized(tag)),
            TokenView::CodeEnd => false,
            _ => in_included_block(events, matcher, at - 1),
        }
    }
}

/// The bytes that the event at index `at` adds to the output: those of its
/// text where it is a text inside an included block, none otherwise.
pub open spec fn written_at<M: CodeMatcher + ?Sized>(
    events: Seq<EventView>,
    matcher: &M,
    at: int,
) -> Seq<u8> {
    match events[at].token {
        TokenView::Text(body) => if in_included_block(events, matcher, at) {
            encode_utf8(body)
        } else {
            Seq::empty()
        },
        _ => Seq::empty(),
    }
}

/// The bytes that the first `count` events add to the output, in order.
pub open spec fn written_until<M: CodeMatcher + ?Sized>(
    events: Seq<EventView>,
    matcher: &M,
    count: int,
) -> Seq<u8>
    decreases count,
{
    if count <= 0 {
        Seq::empty()
    } else {
        written_until(events, matcher, count - 1) + written_at(events, matcher, count - 1)
    }
}

/// The output of an extraction over `events`.
pub open spec fn extracted<M: CodeMatcher + ?Sized>(events: Seq<EventView>, matcher: &M) -> Seq<
    u8,
> {
    written_until(events, matcher, events.len() as int)
}

/// Appends to `output` the text of the fenced blocks among `events` that
/// `matcher` includes. Returns the number of bytes written.
pub fn extract_events<M: CodeMatcher + ?Sized>(
    events: &Vec<Event>,
    output: &mut Vec<u8>,
    matcher: &M,
) -> (bytes: usize)
    ensures
        final(output)@ == old(output)@ + extracted(events_view(events@), matcher),
        bytes == extracted(events_view(events@), matcher).len(),
{
    let ghost views = events_view(events@);
    let ghost before = output@;
    let mut printing = false;
    let mut bytes: usize = 0;
    let mut i: usize = 0;
    while i < events.len()
        invariant
            i <= events.len(),
            views == events_view(events@),
            printing == in_included_block(views, matcher, i as int),
            output@ == before + written_until(views, matcher, i as int),
            bytes == written_until(views, matcher, i as int).len(),
        decreases events.len() - i,
    {
        match &events[i].token {
            Token::CodeStart(tag) => {
                printing = matcher.matches(normalize(tag.as_str()));
            },
            Token::Text(body) => {
                if printing {
                    let text = body.as_str().as_bytes();
                    let ghost written = output@;
                    output.extend_from_slice(text);
                    assert(output@ =~= written + text@);
                    assert(output@.len() <= usize::MAX) by {
                        vstd::std_specs::vec::axiom_spec_len(output);
                    }
                    bytes = bytes + text.len();
                }
            },
            Token::CodeEnd => {
                printing = false;
            },
            _ => {},
        }
        i += 1;
    }
    bytes
}

/// Extracts fenced code blocks from the input. If the matcher includes the
/// language of a block, the contents of the block are appended to the
/// output; otherwise they are passed over. For a block whose language is
/// blank (empty or white space), the matcher gets no language.
///
/// Returns the number of extracted bytes.
pub fn extract<M: CodeMatcher + ?Sized>(input: &str, output: &mut Vec<u8>, matcher: &M) -> (bytes:
    usize)
    ensures
        final(output)@ == old(output)@ + extracted(markdown_events(input@), matcher),
        bytes == extracted(markdown_events(input@), matcher).len(),
{
    let events = tokenize(input);
    extract_events(&events, output, matcher)
}

/// Extraction is a function of the document and the matcher: two
/// extractions from one document with one matcher, appended to the same
/// bytes, give the same output and the same count.
pub proof fn lemma_extract_deterministic<M: CodeMatcher + ?Sized>(
    input: Seq<char>,
    matcher: &M,
    before: Seq<u8>,
    first_output: Seq<u8>,
    first_bytes: usize,
    second_output: Seq<u8>,
    second_bytes: usize,
)
    requires
        first_output == before + extracted(markdown_events(input), matcher),
        first_bytes == extracted(markdown_events(input), matcher).len(),
        second_output == before + extracted(markdown_events(input), matcher),
        second_bytes == extracted(markdown_events(input), matcher).len(),
    ensures
        first_output == second_output,
        first_bytes == second_bytes,
{
}

/// Whether none of the events from index `from` up to, not including,
/// index `to` starts or ends a fenced block.
pub open spec fn no_fence_between(events: Seq<EventView>, from: int, to: int) -> bool {
    forall|j: int|
        from <= j < to ==> !((#[trigger] events[j]).token is CodeStart) && !(events[j].token
            is CodeEnd)
}

/// Behind the start of a fenced block and up to the next start or end of
/// one, every event lies in an included block if the matcher includes the
/// block's tag, and none does if it does not.
pub proof fn lemma_inside_block<M: CodeMatcher + ?Sized>(
    events: Seq<EventView>,
    matcher: &M,
    start: int,
    at: int,
)
    requires
        0 <= start < at <= events.len(),
        events[start].token is CodeStart,
        no_fence_between(events, start + 1, at),
    ensures
        in_included_block(events, matcher, at) == matcher.includes(
            normalized(events[start].token->CodeStart_0),
        ),
    decreases at - start,
{
    if at - 1 > start {
        assert(!(events[at - 1].token is CodeStart) && !(events[at - 1].token is CodeEnd));
        lemma_inside_block(events, matcher, start, at - 1);
    }
}

/// Behind the end of a fenced block and up to the next start of one, no
/// event lies in an included block; nor does any before the first start.
pub proof fn lemma_outside_block<M: CodeMatcher + ?Sized>(
    events: Seq<EventView>,
    matcher: &M,
    end: int,
    at: int,
)
    requires
        0 <= end <= at <= events.len(),
        end == 0 || events[end - 1].token is CodeEnd,
        forall|j: int| end <= j < at ==> !((#[trigger] events[j]).token is CodeStart),
    ensures
        !in_included_block(events, matcher, at),
    decreases at - end,
{
    if at > end {
        assert(!(events[at - 1].token is CodeStart));
        lemma_outside_block(events, matcher, end, at - 1);
    }
}

/// The events of one fenced block that holds one text.
pub open spec fn single_block(events: Seq<EventView>, tag: Seq<char>, body: Seq<char>) -> bool {
    &&& events.len() == 3
    &&& events[0].token == TokenView::CodeStart(tag)
    &&& events[1].token == TokenView::Text(body)
    &&& events[2].token == TokenView::CodeEnd
}

/// A fenced block whose tag the matcher includes yields its text byte for
/// byte and nothing else; one whose tag it does not include yields nothing.
pub proof fn lemma_block_verbatim<M: CodeMatcher + ?Sized>(
    events: Seq<EventView>,
    matcher: &M,
    tag: Seq<char>,
    body: Seq<char>,
)
    requires
        single_block(events, tag, body),
    ensures
        matcher.includes(normalized(tag)) ==> extracted(events, matcher) == encode_utf8(body),
        !matcher.includes(normalized(tag)) ==> extracted(events, matcher) == Seq::<u8>::empty(),
{
    reveal_with_fuel(in_included_block, 4);
    reveal_with_fuel(written_until, 4);
    assert(extracted(events, matcher) =~= written_at(events, matcher, 1));
}

/// A fenced block tagged with exactly the language that is asked for
/// yields its text byte for byte and nothing else.
pub proof fn lemma_exact_language_included(
    events: Seq<EventView>,
    language: &str,
    body: Seq<char>,
)
    requires
        single_block(events, language@, body),
        !is_blank(language@),
    ensures
        extracted(events, language) == encode_utf8(body),
{
    lemma_block_verbatim(events, language, language@, body);
}

/// A fenced block without a language is left out where a language is
/// required, and included where it is not, whatever language the matcher
/// asks for.
pub proof fn lemma_untagged_block(
    events: Seq<EventView>,
    matcher: &LanguageMatcher,
    tag: Seq<char>,
    body: Seq<char>,
)
    requires
        single_block(events, tag, body),
        is_blank(tag),
    ensures
        matcher.required ==> extracted(events, matcher) == Seq::<u8>::empty(),
        !matcher.required ==> extracted(events, matcher) == encode_utf8(body),
{
    lemma_block_verbatim(events, matcher, tag, body);
}

} // verus!
