//! Matchers that decide which headings open a section to include.

use crate::level::HeadingLevel;
use crate::text::{same_text, text_view};
use regex::Regex;
use vstd::prelude::*;
use vstd::string::to_string_from_display_ensures;

verus! {

/// Determines whether the section that a heading opens is included in the
/// output. A matcher is a predicate: `selects` is what it decides.
pub trait HeadingMatcher {
    /// Whether the heading of the given level and text is selected. The
    /// text is absent where the heading has none.
    spec fn selects(&self, level: HeadingLevel, contents: Option<Seq<char>>) -> bool;

    /// Tests whether this heading should be included in the output.
    fn matches(&self, level: HeadingLevel, contents: Option<&str>) -> (r: bool)
        ensures
            r == self.selects(level, text_view(contents)),
    ;
}

impl<Matcher: HeadingMatcher + ?Sized> HeadingMatcher for Box<Matcher> {
    open spec fn selects(&self, level: HeadingLevel, contents: Option<Seq<char>>) -> bool {
        (**self).selects(level, contents)
    }

    fn matches(&self, level: HeadingLevel, contents: Option<&str>) -> (r: bool) {
        (**self).matches(level, contents)
    }
}

impl<Matcher: HeadingMatcher + ?Sized> HeadingMatcher for &Matcher {
    open spec fn selects(&self, level: HeadingLevel, contents: Option<Seq<char>>) -> bool {
        (**self).selects(level, contents)
    }

    fn matches(&self, level: HeadingLevel, contents: Option<&str>) -> (r: bool) {
        (**self).matches(level, contents)
    }
}

/// A constant: every heading, or none.
impl HeadingMatcher for bool {
    open spec fn selects(&self, level: HeadingLevel, contents: Option<Seq<char>>) -> bool {
        *self
    }

    fn matches(&self, level: HeadingLevel, contents: Option<&str>) -> (r: bool) {
        *self
    }
}

/// The headings of exactly this level, whatever their text.
impl HeadingMatcher for HeadingLevel {
    open spec fn selects(&self, level: HeadingLevel, contents: Option<Seq<char>>) -> bool {
        *self == level
    }

    fn matches(&self, level: HeadingLevel, contents: Option<&str>) -> (r: bool) {
        *self == level
    }
}

/// The headings of the given level, or of any level where none is given.
impl HeadingMatcher for Option<HeadingLevel> {
    open spec fn selects(&self, level: HeadingLevel, contents: Option<Seq<char>>) -> bool {
        match self {
            Some(expected) => *expected == level,
            None => true,
        }
    }

    fn matches(&self, level: HeadingLevel, contents: Option<&str>) -> (r: bool) {
        match self {
            Some(expected) => *expected == level,
            None => true,
        }
    }
}

/// The headings whose text is exactly this text.
impl HeadingMatcher for str {
    open spec fn selects(&self, level: HeadingLevel, contents: Option<Seq<char>>) -> bool {
        contents == Some(self@)
    }

    fn matches(&self, level: HeadingLevel, contents: Option<&str>) -> (r: bool) {
        match contents {
            Some(contents) => same_text(self, contents),
            None => false,
        }
    }
}

/// The headings whose text is exactly the given text, or every heading
/// where none is given.
impl<'a> HeadingMatcher for Option<&'a str> {
    open spec fn selects(&self, level: HeadingLevel, contents: Option<Seq<char>>) -> bool {
        match self {
            Some(expected) => contents == Some(expected@),
            None => true,
        }
    }

    fn matches(&self, level: HeadingLevel, contents: Option<&str>) -> (r: bool) {
        match (self, contents) {
            (None, _) => true,
            (Some(expected), Some(contents)) => same_text(expected, contents),
            (Some(_), None) => false,
        }
    }
}

/// `regex::Regex`, a compiled regular expression. Nothing of its inside is
/// known here.
#[verifier::external_type_specification]
#[verifier::external_body]
pub struct ExRegex(regex::Regex);

/// `regex::Error`, the reason why a regular expression did not compile.
#[verifier::external_type_specification]
#[verifier::external_body]
pub struct ExRegexError(regex::Error);

/// `Clone::clone` of `regex::Regex`. Nothing is claimed of the copy: it only
/// lets a [`Pattern`] be cloned.
pub assume_specification[ <Regex as Clone>::clone ](regex: &Regex) -> (copy: Regex);

/// Whether `regex::Regex::new` compiles `source`. The engine refuses a text
/// with a syntax error and one whose compiled form exceeds its size limit,
/// as the library is built.
pub uninterp spec fn pattern_compiles(source: Seq<char>) -> bool;

/// What `regex::Regex::is_match` answers for the expression that
/// `regex::Regex::new` compiles from `source`: whether the expression finds
/// a match anywhere in `text`.
pub uninterp spec fn pattern_matches(source: Seq<char>, text: Seq<char>) -> bool;

/// A compiled regular expression. Its value is the text it was compiled
/// from.
#[derive(Clone, Debug)]
pub struct Pattern {
    source: String,
    regex: Regex,
}

impl View for Pattern {
    type V = Seq<char>;

    closed spec fn view(&self) -> Seq<char> {
        self.source@
    }
}

/// Compiles a regular expression with `regex::Regex::new` and keeps the
/// compiled form beside the text it was compiled from. Whether a text
/// compiles depends on the text alone and is named [`pattern_compiles`].
#[verifier::external_body]
fn compile(source: &str) -> (r: Result<Pattern, regex::Error>)
    ensures
        r is Ok <==> pattern_compiles(source@),
        r matches Ok(pattern) ==> pattern@ == source@,
{
    Regex::new(source).map(|regex| Pattern { source: source.to_owned(), regex })
}

/// Searches a text with `regex::Regex::is_match`, which reports whether the
/// expression matches anywhere in the text. The expression held by a
/// [`Pattern`] is always the one compiled from its text by `Regex::new`, so
/// the answer depends on that text and on the searched text alone.
#[verifier::external_body]
fn search(pattern: &Pattern, text: &str) -> (r: bool)
    ensures
        r == pattern_matches(pattern@, text@),
{
    pattern.regex.is_match(text)
}

/// Why a text is no regular expression.
#[derive(Debug)]
pub struct PatternError {
    /// What the engine found wrong with the text.
    pub cause: regex::Error,
}

impl PatternError {
    /// The message of the failure, as the engine words it.
    pub fn message(&self) -> (r: String)
        ensures
            to_string_from_display_ensures::<regex::Error>(&self.cause, r),
    {
        self.cause.to_string()
    }
}

impl Pattern {
    /// Compiles `source`. On success the pattern's value is `source`; on
    /// failure the error holds what the engine found wrong.
    pub fn new(source: &str) -> (r: Result<Pattern, PatternError>)
        ensures
            r is Ok <==> pattern_compiles(source@),
            r matches Ok(pattern) ==> pattern@ == source@,
    {
        Pattern::from_compilation(compile(source))
    }

    /// What a compilation comes to: the pattern where the engine gave one,
    /// and otherwise the failure whose cause is the engine's reason.
    pub open spec fn spec_from_compilation(outcome: Result<Pattern, regex::Error>) -> Result<
        Pattern,
        PatternError,
    > {
        match outcome {
            Ok(pattern) => Ok(pattern),
            Err(cause) => Err(PatternError { cause }),
        }
    }

    /// Takes what the engine made of a text: a pattern is handed on as it
    /// is, and the engine's reason for refusing becomes the cause of a
    /// [`PatternError`].
    pub fn from_compilation(outcome: Result<Pattern, regex::Error>) -> (r: Result<
        Pattern,
        PatternError,
    >)
        ensures
            r == Pattern::spec_from_compilation(outcome),
    {
        match outcome {
            Ok(pattern) => Ok(pattern),
            Err(cause) => Err(PatternError { cause }),
        }
    }

    /// The text that the pattern was compiled from.
    pub fn as_str(&self) -> (r: &str)
        ensures
            r@ == self@,
    {
        self.source.as_str()
    }
}

/// What a pattern, where one is given, decides of a heading's text: a
/// heading without text never satisfies a pattern.
pub open spec fn pattern_selects(pattern: Option<Pattern>, contents: Option<Seq<char>>) -> bool {
    match (pattern, contents) {
        (Some(pattern), Some(contents)) => pattern_matches(pattern@, contents),
        (Some(_), None) => false,
        (None, _) => true,
    }
}

/// The headings whose text the pattern matches, or every heading where no
/// pattern is given.
impl HeadingMatcher for Option<Pattern> {
    open spec fn selects(&self, level: HeadingLevel, contents: Option<Seq<char>>) -> bool {
        pattern_selects(*self, contents)
    }

    fn matches(&self, level: HeadingLevel, contents: Option<&str>) -> (r: bool) {
        match (self, contents) {
            (Some(pattern), Some(contents)) => search(pattern, contents),
            (Some(_), None) => false,
            (None, _) => true,
        }
    }
}

/// Matches a heading against an optional level and an optional regular
/// expression for its text. Both must hold; one that is absent always holds.
#[derive(Clone, Debug)]
pub struct PatternMatcher {
    level: Option<HeadingLevel>,
    pattern: Option<Pattern>,
}

impl PatternMatcher {
    /// The level that a heading must have, if any.
    pub closed spec fn level(&self) -> Option<HeadingLevel> {
        self.level
    }

    /// The pattern that a heading's text must match, if any.
    pub closed spec fn pattern(&self) -> Option<Pattern> {
        self.pattern
    }

    /// Creates a new [`PatternMatcher`].
    pub fn new(level: Option<HeadingLevel>, pattern: Option<Pattern>) -> (r: Self)
        ensures
            r.level() == level,
            r.pattern() == pattern,
    {
        Self { level, pattern }
    }

    /// How the matcher is written: the level's name, or `h*` for any level,
    /// then a space and the pattern's text, or `*` for any text.
    pub open spec fn spec_text(&self) -> Seq<char> {
        let level = match self.level() {
            None => "h*"@,
            Some(level) => level.spec_name(),
        };
        let pattern = match self.pattern() {
            None => " *"@,
            Some(pattern) => " "@ + pattern@,
        };
        level + pattern
    }

    /// Writes the matcher out, as `h2 ^Intro` or `h* *`.
    pub fn to_text(&self) -> (r: String)
        ensures
            r@ == self.spec_text(),
    {
        let mut text = match self.level {
            None => String::from_str("h*"),
            Some(level) => String::from_str(level.name()),
        };
        match &self.pattern {
            None => text.append(" *"),
            Some(pattern) => {
                text.append(" ");
                text.append(pattern.as_str());
            },
        }
        text
    }
}

impl HeadingMatcher for PatternMatcher {
    open spec fn selects(&self, level: HeadingLevel, contents: Option<Seq<char>>) -> bool {
        self.level().selects(level, contents) && self.pattern().selects(level, contents)
    }

    fn matches(&self, level: HeadingLevel, contents: Option<&str>) -> (r: bool) {
        HeadingMatcher::matches(&self.level, level, contents) && HeadingMatcher::matches(
            &self.pattern,
            level,
            contents,
        )
    }
}

} // verus!
