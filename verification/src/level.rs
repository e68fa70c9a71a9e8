//! The rank of a heading.

use vstd::prelude::*;

verus! {

/// Rank of a heading. `H1` is the most significant, that is the shallowest,
/// level and `H6` the deepest.
#[derive(Clone, Copy, Debug, PartialEq, Eq, Structural, PartialOrd, Ord, Hash)]
pub enum HeadingLevel {
    H1,
    H2,
    H3,
    H4,
    H5,
    H6,
}

impl HeadingLevel {
    /// The depth of the level, from 1 for `H1` to 6 for `H6`.
    pub open spec fn spec_rank(self) -> u8 {
        match self {
            HeadingLevel::H1 => 1,
            HeadingLevel::H2 => 2,
            HeadingLevel::H3 => 3,
            HeadingLevel::H4 => 4,
            HeadingLevel::H5 => 5,
            HeadingLevel::H6 => 6,
        }
    }

    /// The depth of the level, from 1 for `H1` to 6 for `H6`.
    #[verifier::when_used_as_spec(spec_rank)]
    pub fn rank(self) -> (r: u8)
        ensures
            r == self.spec_rank(),
    {
        match self {
            HeadingLevel::H1 => 1,
            HeadingLevel::H2 => 2,
            HeadingLevel::H3 => 3,
            HeadingLevel::H4 => 4,
            HeadingLevel::H5 => 5,
            HeadingLevel::H6 => 6,
        }
    }

    /// Whether a heading of this level ends a section opened at `opened`:
    /// it does when it is as shallow as the opening heading, or shallower.
    pub open spec fn spec_closes(self, opened: HeadingLevel) -> bool {
        self.spec_rank() <= opened.spec_rank()
    }

    /// Whether a heading of this level ends a section opened at `opened`.
    #[verifier::when_used_as_spec(spec_closes)]
    pub fn closes(self, opened: HeadingLevel) -> (r: bool)
        ensures
            r == self.spec_closes(opened),
    {
        self.rank() <= opened.rank()
    }

    /// The short name of the level, `h1` to `h6`.
    pub open spec fn spec_name(self) -> Seq<char> {
        match self {
            HeadingLevel::H1 => "h1"@,
            HeadingLevel::H2 => "h2"@,
            HeadingLevel::H3 => "h3"@,
            HeadingLevel::H4 => "h4"@,
            HeadingLevel::H5 => "h5"@,
            HeadingLevel::H6 => "h6"@,
        }
    }

    /// The short name of the level, `h1` to `h6`.
    pub fn name(self) -> (r: &'static str)
        ensures
            r@ == self.spec_name(),
    {
        match self {
            HeadingLevel::H1 => "h1",
            HeadingLevel::H2 => "h2",
            HeadingLevel::H3 => "h3",
            HeadingLevel::H4 => "h4",
            HeadingLevel::H5 => "h5",
            HeadingLevel::H6 => "h6",
        }
    }
}

} // verus!
