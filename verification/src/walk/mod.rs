//! The decisions of a walk over a directory tree: which entries are
//! visited, and where the output of each file goes.

pub mod filter;
pub mod mapper;
pub mod path;

pub use filter::FileFilter;
pub use mapper::PathMapper;

use crate::error::LiterateError;
use crate::text::{hidden_name, is_hidden_name};
use crate::walk::path::{parent, path_file_name, path_parent, path_strip_prefix, strip_prefix};
use vstd::prelude::*;

verus! {

/// An entry met while a directory tree is enumerated: its path, the name
/// it goes by in its directory, and whether it is a directory.
#[derive(Clone, Debug, PartialEq, Eq)]
pub struct WalkEntry {
    pub path: String,
    pub file_name: String,
    pub is_dir: bool,
}

/// Whether a walk goes on with an entry. A directory is decided by its
/// name alone: it is entered unless it is hidden, that is unless its name
/// begins with a dot, whatever the filter would say of it. Any other entry
/// is left to the filter.
pub open spec fn visits<Filter: FileFilter + ?Sized>(entry: WalkEntry, filter: &Filter) -> bool {
    if entry.is_dir {
        !is_hidden_name(entry.file_name@)
    } else {
        filter.admits(entry.path@)
    }
}

/// Tests whether a walk goes on with an entry. A directory that is not
/// hidden is always entered, so that files at any depth are found; a hidden
/// directory never is, so that nothing below it is met.
pub fn filter_dir_entry<Filter: FileFilter + ?Sized>(entry: &WalkEntry, filter: &Filter) -> (r:
    bool)
    ensures
        r == visits(*entry, filter),
{
    if entry.is_dir {
        !hidden_name(entry.file_name.as_str())
    } else {
        filter.filter_file(entry.path.as_str())
    }
}

/// A hidden directory is never visited, whatever the filter: a walk that
/// descends only into what it visits meets nothing below it.
pub proof fn lemma_hidden_directory_not_visited<Filter: FileFilter + ?Sized>(
    entry: WalkEntry,
    filter: &Filter,
)
    requires
        entry.is_dir,
        is_hidden_name(entry.file_name@),
    ensures
        !visits(entry, filter),
{
}

/// A hidden file is never visited by a walk that filters by extension,
/// where the file's name is the final component of its path.
pub proof fn lemma_hidden_file_not_visited(entry: WalkEntry, extension: &str)
    requires
        !entry.is_dir,
        path_file_name(entry.path@) == Some(entry.file_name@),
        is_hidden_name(entry.file_name@),
    ensures
        !visits(entry, extension),
{
}

/// Where the output of one input file goes.
#[derive(Clone, Debug, PartialEq, Eq)]
pub struct Target {
    /// The path of the output file.
    pub path: String,
    /// The directory of the output file, to be created with its ancestors
    /// where it is missing.
    pub parent: Option<String>,
    /// Whether the output file must not exist yet. Where it may exist, it
    /// is emptied before it is written.
    pub create_new: bool,
}

/// What a walk does with an entry that it visits.
#[derive(Clone, Debug, PartialEq, Eq)]
pub enum Visit {
    /// The entry is a directory: nothing is extracted from it.
    Skip,
    /// The entry is a file: its code is extracted to the target.
    Extract(Target),
}

/// Whether `target` is where the output of the file at `root/rest` goes:
/// at the path that the mapper gives for `rest`, in that path's directory,
/// and into a file that must be new unless the walk may overwrite.
pub open spec fn is_target<Mapper: PathMapper + ?Sized>(
    target: Target,
    rest: Seq<char>,
    mapper: &Mapper,
    overwrite: bool,
) -> bool {
    &&& target.path@ == mapper.mapped(rest)
    &&& match target.parent {
        Some(parent) => path_parent(target.path@) == Some(parent@),
        None => path_parent(target.path@) is None,
    }
    &&& target.create_new == !overwrite
}

/// Decides what the walk from `root` does with an entry that it visits. A
/// directory is skipped. A file is extracted to its target; where its path
/// does not lie under `root`, the walk fails.
pub fn visit_entry<Mapper: PathMapper + ?Sized>(
    root: &str,
    entry: &WalkEntry,
    mapper: &Mapper,
    overwrite: bool,
) -> (r: Result<Visit, LiterateError>)
    ensures
        match r {
            Ok(Visit::Skip) => entry.is_dir,
            Ok(Visit::Extract(target)) => {
                &&& !entry.is_dir
                &&& path_strip_prefix(entry.path@, root@) matches Some(rest)
                &&& is_target(target, rest, mapper, overwrite)
            },
            Err(e) => {
                &&& !entry.is_dir
                &&& path_strip_prefix(entry.path@, root@) is None
                &&& e is Prefix
            },
        },
{
    if entry.is_dir {
        return Ok(Visit::Skip);
    }
    match strip_prefix(entry.path.as_str(), root) {
        Ok(rest) => {
            let path = mapper.map_path(rest.as_str());
            let parent = match parent(path.as_str()) {
                Some(parent) => Some(String::from_str(parent)),
                None => None,
            };
            Ok(Visit::Extract(Target { path, parent, create_new: !overwrite }))
        },
        Err(e) => Err(LiterateError::from(e)),
    }
}

/// Counts a visit that has been carried out: a file that was extracted
/// counts as one, a directory that was skipped does not count.
pub fn count_visit(files: usize, visit: &Visit) -> (r: usize)
    requires
        files < usize::MAX,
    ensures
        r == files + if *visit is Extract { 1int } else { 0int },
{
    match visit {
        Visit::Extract(_) => files + 1,
        Visit::Skip => files,
    }
}

} // verus!
