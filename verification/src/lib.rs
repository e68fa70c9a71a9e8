//! Extraction of fenced code blocks and of heading-scoped sections from
//! Markdown documents.
//!
//! A document is read as a sequence of structural events ([`event`]). Two
//! extractions run over the events:
//!
//! - [`extract`] writes out the text of the fenced code blocks whose
//!   language a [`CodeMatcher`] includes;
//! - [`quote`] writes out the sections whose heading a [`HeadingMatcher`]
//!   selects, as they stand in the source text.
//!
//! Both append to a buffer of bytes and return how many bytes they took
//! from the document. [`walk`] holds the decisions of an extraction over a
//! whole directory tree: which entries are visited, and where the output of
//! each file goes. Reading and writing files is left to the caller.

pub mod error;
pub mod event;
pub mod extract;
pub mod heading;
pub mod level;
pub mod matcher;
pub mod quote;
pub mod text;
pub mod verbosity;
pub mod walk;

pub use error::LiterateError;
pub use extract::extract;
pub use heading::{HeadingMatcher, Pattern, PatternError, PatternMatcher};
pub use level::HeadingLevel;
pub use matcher::{CodeFilter, CodeMatcher, LanguageArguments, LanguageMatcher};
pub use quote::quote;
pub use verbosity::{Level, Verbosity};
