//! Matchers that decide which fenced code blocks are included.

use crate::text::{same_text, text_view};
use vstd::prelude::*;

verus! {

/// Determines whether a fenced code block is included in the output. A
/// matcher is a predicate on the block's language tag: `includes` is what
/// it decides.
pub trait CodeMatcher {
    /// Whether a block with the given language tag is included. The tag is
    /// absent where the block has none.
    spec fn includes(&self, language: Option<Seq<char>>) -> bool;

    /// Tests whether this fenced code block should be included in the
    /// output.
    fn matches(&self, language: Option<&str>) -> (r: bool)
        ensures
            r == self.includes(text_view(language)),
    ;
}

impl<Matcher: CodeMatcher + ?Sized> CodeMatcher for Box<Matcher> {
    open spec fn includes(&self, language: Option<Seq<char>>) -> bool {
        (**self).includes(language)
    }

    fn matches(&self, language: Option<&str>) -> (r: bool) {
        (**self).matches(language)
    }
}

impl<Matcher: CodeMatcher + ?Sized> CodeMatcher for &Matcher {
    open spec fn includes(&self, language: Option<Seq<char>>) -> bool {
        (**self).includes(language)
    }

    fn matches(&self, language: Option<&str>) -> (r: bool) {
        (**self).matches(language)
    }
}

/// A constant: every block, or none.
impl CodeMatcher for bool {
    open spec fn includes(&self, language: Option<Seq<char>>) -> bool {
        *self
    }

    fn matches(&self, language: Option<&str>) -> (r: bool) {
        *self
    }
}

/// The blocks that are tagged with exactly this language.
impl CodeMatcher for str {
    open spec fn includes(&self, language: Option<Seq<char>>) -> bool {
        language == Some(self@)
    }

    fn matches(&self, language: Option<&str>) -> (r: bool) {
        match language {
            Some(language) => same_text(self, language),
            None => false,
        }
    }
}

/// Every block but those tagged with another language than the given one.
impl<'a> CodeMatcher for Option<&'a str> {
    open spec fn includes(&self, language: Option<Seq<char>>) -> bool {
        match (language, *self) {
            (Some(actual), Some(expected)) => actual == expected@,
            _ => true,
        }
    }

    fn matches(&self, language: Option<&str>) -> (r: bool) {
        match (language, *self) {
            (Some(actual), Some(expected)) => same_text(actual, expected),
            _ => true,
        }
    }
}

/// Matches the fenced code block against a language. `required` says
/// whether a block without a language is left out.
#[derive(Clone, Debug)]
pub struct LanguageMatcher {
    pub language: String,
    pub required: bool,
}

impl LanguageMatcher {
    /// Creates a new [`LanguageMatcher`].
    pub fn new(language: String, required: bool) -> (r: Self)
        ensures
            r.language == language,
            r.required == required,
    {
        LanguageMatcher { language, required }
    }

    /// How the matcher is written: the language, followed by `?` where a
    /// block without a language is included too.
    pub open spec fn spec_text(&self) -> Seq<char> {
        if self.required {
            self.language@
        } else {
            self.language@ + "?"@
        }
    }

    /// Writes the matcher out, as `rust` or `rust?`.
    pub fn to_text(&self) -> (r: String)
        ensures
            r@ == self.spec_text(),
    {
        let mut text = String::from_str(self.language.as_str());
        if !self.required {
            text.append("?");
        }
        text
    }
}

impl Default for LanguageMatcher {
    fn default() -> (r: Self)
        ensures
            r.language@ == Seq::<char>::empty(),
            !r.required,
    {
        LanguageMatcher { language: String::new(), required: false }
    }
}

impl PartialEq for LanguageMatcher {
    fn eq(&self, other: &Self) -> (r: bool) {
        self.language == other.language && self.required == other.required
    }
}

impl Eq for LanguageMatcher {}

impl vstd::std_specs::cmp::PartialEqSpecImpl for LanguageMatcher {
    open spec fn obeys_eq_spec() -> bool {
        true
    }

    open spec fn eq_spec(&self, other: &Self) -> bool {
        self.language@ == other.language@ && self.required == other.required
    }
}

impl CodeMatcher for LanguageMatcher {
    open spec fn includes(&self, language: Option<Seq<char>>) -> bool {
        match language {
            Some(actual) => actual == self.language@,
            None => !self.required,
        }
    }

    fn matches(&self, language: Option<&str>) -> (r: bool) {
        match language {
            Some(actual) => same_text(actual, self.language.as_str()),
            None => !self.required,
        }
    }
}

/// Whether a language is required decides about the blocks without a
/// language and about no others: such a block is left out where a language
/// is required and included where it is not, and two matchers of one
/// language agree on every block that has a language.
pub proof fn lemma_required_decides_untagged(
    strict: LanguageMatcher,
    lenient: LanguageMatcher,
    language: Seq<char>,
)
    requires
        strict.language@ == lenient.language@,
        strict.required,
        !lenient.required,
    ensures
        !strict.includes(None),
        lenient.includes(None),
        strict.includes(Some(language)) == lenient.includes(Some(language)),
{
}

/// One of the two matchers that a choice of language comes to: a constant,
/// or a [`LanguageMatcher`].
#[derive(Clone, Debug)]
pub enum CodeFilter {
    /// Every block, or none.
    Constant(bool),
    /// The blocks that the language matcher includes.
    Language(LanguageMatcher),
}

impl CodeMatcher for CodeFilter {
    open spec fn includes(&self, language: Option<Seq<char>>) -> bool {
        match self {
            CodeFilter::Constant(constant) => constant.includes(language),
            CodeFilter::Language(matcher) => matcher.includes(language),
        }
    }

    fn matches(&self, language: Option<&str>) -> (r: bool) {
        match self {
            CodeFilter::Constant(constant) => constant.matches(language),
            CodeFilter::Language(matcher) => matcher.matches(language),
        }
    }
}

/// Which language was asked for, and whether blocks without one are left
/// out.
#[derive(Clone, Debug)]
pub struct LanguageArguments {
    /// The language that the fenced code blocks must match to be included.
    pub language: Option<String>,
    /// Require fenced code blocks to have a language to be included.
    pub required: bool,
}

impl From<LanguageArguments> for CodeFilter {
    /// The matcher that the arguments ask for: with a language, a
    /// [`LanguageMatcher`] of that language; without one, the constant that
    /// includes every block unless a language is required, and then none.
    fn from(arguments: LanguageArguments) -> (r: Self) {
        match arguments.language {
            Some(language) => CodeFilter::Language(LanguageMatcher::new(language, arguments.required)),
            None => CodeFilter::Constant(!arguments.required),
        }
    }
}

impl vstd::std_specs::convert::FromSpecImpl<LanguageArguments> for CodeFilter {
    open spec fn obeys_from_spec() -> bool {
        true
    }

    open spec fn from_spec(arguments: LanguageArguments) -> Self {
        match arguments.language {
            Some(language) => CodeFilter::Language(
                LanguageMatcher { language, required: arguments.required },
            ),
            None => CodeFilter::Constant(!arguments.required),
        }
    }
}

} // verus!
