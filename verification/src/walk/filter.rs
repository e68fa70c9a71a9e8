//! Filters that decide which files of a walk are read.

use crate::text::{hidden_name, is_hidden_name};
use crate::walk::path::{extension_of, file_name, without_extension};
use crate::walk::path::{last_dot, lemma_extension_splits_name, name_has_extension};
use crate::walk::path::{path_file_name, path_without_extension};
use vstd::prelude::*;

verus! {

/// Determines whether a file is included in the extraction of a directory
/// tree. A filter is a predicate on the file's path: `admits` is what it
/// decides.
pub trait FileFilter {
    /// Whether the file at this path is included.
    spec fn admits(&self, file: Seq<char>) -> bool;

    /// Tests whether this file should be included in the list of files to
    /// extract.
    fn filter_file(&self, file: &str) -> (r: bool)
        ensures
            r == self.admits(file@),
    ;
}

impl<Filter: FileFilter + ?Sized> FileFilter for Box<Filter> {
    open spec fn admits(&self, file: Seq<char>) -> bool {
        (**self).admits(file)
    }

    fn filter_file(&self, file: &str) -> (r: bool) {
        (**self).filter_file(file)
    }
}

/// Whether the final component of a path begins with a dot.
pub open spec fn hidden(file: Seq<char>) -> bool {
    path_file_name(file) matches Some(name) && is_hidden_name(name)
}

/// Whether the file name of a path has exactly this extension.
pub open spec fn extended(extension: Seq<char>, file: Seq<char>) -> bool {
    extension_of(path_file_name(file)) == Some(extension)
}

/// Tests whether the final component of a path begins with a dot.
pub fn is_hidden(file: &str) -> (r: bool)
    ensures
        r == hidden(file@),
{
    match file_name(file) {
        Some(name) => hidden_name(name),
        None => false,
    }
}

/// Tests whether the file name of a path has exactly this extension.
pub fn has_extension(extension: &str, file: &str) -> (r: bool)
    ensures
        r == extended(extension@, file@),
{
    match file_name(file) {
        Some(name) => name_has_extension(name, extension),
        None => false,
    }
}

/// The files named `*.<extension>.md` that are not hidden: the last
/// extension of the file must be `md`, and the one before it this text.
impl FileFilter for str {
    open spec fn admits(&self, file: Seq<char>) -> bool {
        &&& !hidden(file)
        &&& extended("md"@, file)
        &&& extended(self@, path_without_extension(file))
    }

    fn filter_file(&self, file: &str) -> (r: bool) {
        !is_hidden(file) && has_extension("md", file) && has_extension(
            self,
            without_extension(file).as_str(),
        )
    }
}

/// The filter by extension admits only files whose name ends in `.md` and
/// does not begin with a dot.
pub proof fn lemma_admitted_file_is_markdown(extension: &str, file: Seq<char>)
    requires
        extension.admits(file),
    ensures
        path_file_name(file) matches Some(name) && {
            &&& name.len() > 3
            &&& name[0] != '.'
            &&& name.subrange(name.len() - 3, name.len() as int) == ".md"@
        },
{
    let name = path_file_name(file)->Some_0;
    lemma_extension_splits_name(name);
    reveal_strlit("md");
    reveal_strlit(".md");
    let dot = last_dot(name);
    assert(name.subrange(dot + 1, name.len() as int).len() == 2);
    assert(name.subrange(name.len() - 3, name.len() as int) =~= seq!['.'] + "md"@);
    assert(seq!['.'] + "md"@ =~= ".md"@);
}

} // verus!
