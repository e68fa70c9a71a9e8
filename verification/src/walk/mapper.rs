//! Mappers from the path of an input file to the path of its output.

use crate::walk::path::{join, path_join, path_without_extension, without_extension};
use vstd::prelude::*;

verus! {

/// Determines the output path of the contents extracted from an input
/// file. A mapper is a function of the file's path: `mapped` is its value.
pub trait PathMapper {
    /// The output path for the file at this path, which is relative to the
    /// root of the walk.
    spec fn mapped(&self, file: Seq<char>) -> Seq<char>;

    /// Maps the extracted file's path relative to the input path to an
    /// output path.
    fn map_path(&self, file: &str) -> (r: String)
        ensures
            r@ == self.mapped(file@),
    ;
}

impl<Mapper: PathMapper + ?Sized> PathMapper for Box<Mapper> {
    open spec fn mapped(&self, file: Seq<char>) -> Seq<char> {
        (**self).mapped(file)
    }

    fn map_path(&self, file: &str) -> (r: String) {
        (**self).map_path(file)
    }
}

impl<Mapper: PathMapper + ?Sized> PathMapper for &Mapper {
    open spec fn mapped(&self, file: Seq<char>) -> Seq<char> {
        (**self).mapped(file)
    }

    fn map_path(&self, file: &str) -> (r: String) {
        (**self).map_path(file)
    }
}

/// The file's path under the directory `root`, without the last extension
/// of the file.
pub open spec fn mapped_under(root: Seq<char>, file: Seq<char>) -> Seq<char> {
    path_join(root, path_without_extension(file))
}

/// Maps into the directory that the text names.
impl PathMapper for String {
    open spec fn mapped(&self, file: Seq<char>) -> Seq<char> {
        mapped_under(self@, file)
    }

    fn map_path(&self, file: &str) -> (r: String) {
        join(self.as_str(), without_extension(file).as_str())
    }
}

/// Maps into the directory that the text names.
impl PathMapper for str {
    open spec fn mapped(&self, file: Seq<char>) -> Seq<char> {
        mapped_under(self@, file)
    }

    fn map_path(&self, file: &str) -> (r: String) {
        join(self, without_extension(file).as_str())
    }
}

} // verus!
