//! Paths as text, taken apart and put together by `std::path::Path`.
//!
//! Most functions of this module hand a path to the standard library and
//! take the answer back as text. The standard library reads a path by the
//! rules of the platform that the library is built for. Its answer is a
//! function of the texts handed to it, and is named here rather than
//! described. Only the extension of a file name is worked out here: it is
//! what follows the last dot of the name.

use crate::text::text_view;
use std::path::{Path, StripPrefixError};
use vstd::prelude::*;

verus! {

/// What `Path::file_name` gives for a path: its final component, if there
/// is one.
pub uninterp spec fn path_file_name(path: Seq<char>) -> Option<Seq<char>>;

/// What `Path::with_extension` gives for a path and an empty extension:
/// the path without the extension of its file name.
pub uninterp spec fn path_without_extension(path: Seq<char>) -> Seq<char>;

/// What `Path::join` gives: the path `path` adjoined to the path `base`.
pub uninterp spec fn path_join(base: Seq<char>, path: Seq<char>) -> Seq<char>;

/// What `Path::strip_prefix` gives: the path `path` relative to `base`, if
/// `base` is a prefix of it.
pub uninterp spec fn path_strip_prefix(path: Seq<char>, base: Seq<char>) -> Option<Seq<char>>;

/// What `Path::parent` gives for a path: the path without its final
/// component, if there is one.
pub uninterp spec fn path_parent(path: Seq<char>) -> Option<Seq<char>>;

/// The index of the last dot of a name, or -1 where it has none.
pub open spec fn last_dot(name: Seq<char>) -> int
    decreases name.len(),
{
    if name.len() == 0 {
        -1
    } else if name.last() == '.' {
        name.len() - 1
    } else {
        last_dot(name.drop_last())
    }
}

/// The extension of a file name: what follows its last dot. A name without
/// a dot has none, and neither has a name whose only dot is its first
/// character.
pub open spec fn extension_of(name: Option<Seq<char>>) -> Option<Seq<char>> {
    match name {
        Some(name) if last_dot(name) > 0 => Some(
            name.subrange(last_dot(name) + 1, name.len() as int),
        ),
        _ => None,
    }
}

/// What [`last_dot`] finds: a dot, with no dot behind it.
pub proof fn lemma_last_dot(name: Seq<char>)
    ensures
        -1 <= last_dot(name) < name.len(),
        last_dot(name) >= 0 ==> name[last_dot(name)] == '.',
        forall|i: int| last_dot(name) < i < name.len() ==> name[i] != '.',
    decreases name.len(),
{
    if name.len() > 0 && name.last() != '.' {
        lemma_last_dot(name.drop_last());
        assert forall|i: int| last_dot(name) < i < name.len() implies name[i] != '.' by {
            if i < name.len() - 1 {
                assert(name[i] == name.drop_last()[i]);
            }
        }
    }
}

/// A name with an extension is a stem, a dot and the extension, in that
/// order: the stem is not empty and the extension holds no dot.
pub proof fn lemma_extension_splits_name(name: Seq<char>)
    requires
        extension_of(Some(name)) is Some,
    ensures
        0 < last_dot(name) < name.len(),
        name == name.subrange(0, last_dot(name)) + seq!['.'] + extension_of(Some(name))->Some_0,
        !extension_of(Some(name))->Some_0.contains('.'),
{
    lemma_last_dot(name);
    let dot = last_dot(name);
    let extension = name.subrange(dot + 1, name.len() as int);
    assert(name =~= name.subrange(0, dot) + seq!['.'] + extension);
    if extension.contains('.') {
        let i = choose|i: int| 0 <= i < extension.len() && extension[i] == '.';
        assert(name[dot + 1 + i] == '.');
    }
}

/// The characters of a text, in order.
fn characters(text: &str) -> (r: Vec<char>)
    ensures
        r@ == text@,
{
    let mut r: Vec<char> = Vec::new();
    for c in it: text.chars()
        invariant
            it.seq() == text@,
            r@ == text@.take(it.index()),
    {
        r.push(c);
        assert(r@ =~= text@.take(it.index() + 1));
    }
    assert(text@.take(text@.len() as int) =~= text@);
    r
}

/// Finds the last dot of a name.
fn find_last_dot(name: &Vec<char>) -> (r: Option<usize>)
    ensures
        match r {
            Some(dot) => last_dot(name@) == dot,
            None => last_dot(name@) == -1,
        },
{
    let mut end: usize = name.len();
    assert(name@.take(end as int) =~= name@);
    while end > 0
        invariant
            end <= name.len(),
            last_dot(name@) == last_dot(name@.take(end as int)),
        decreases end,
    {
        if name[end - 1] == '.' {
            return Some(end - 1);
        }
        assert(name@.take(end as int).drop_last() =~= name@.take(end - 1));
        end -= 1;
    }
    None
}

/// Tests whether a file name has exactly this extension.
pub fn name_has_extension(name: &str, extension: &str) -> (r: bool)
    ensures
        r == (extension_of(Some(name@)) == Some(extension@)),
{
    let letters = characters(name);
    let expected = characters(extension);
    proof {
        lemma_last_dot(name@);
    }
    match find_last_dot(&letters) {
        Some(dot) => {
            if dot == 0 || letters.len() - dot - 1 != expected.len() {
                return false;
            }
            let ghost actual = name@.subrange(dot + 1, name@.len() as int);
            let mut i: usize = 0;
            while i < expected.len()
                invariant
                    i <= expected.len(),
                    0 < dot < letters.len(),
                    letters.len() - dot - 1 == expected.len(),
                    letters@ == name@,
                    expected@ == extension@,
                    last_dot(name@) == dot,
                    actual == name@.subrange(dot + 1, name@.len() as int),
                    forall|j: int| 0 <= j < i ==> actual[j] == expected@[j],
                decreases expected.len() - i,
            {
                if letters[dot + 1 + i] != expected[i] {
                    assert(actual[i as int] != extension@[i as int]);
                    return false;
                }
                i += 1;
            }
            assert(actual =~= extension@);
            true
        },
        None => false,
    }
}

/// `Path::file_name`: the final component of the path, or nothing where the
/// path has none (it is empty, a root, or ends in `..`).
#[verifier::external_body]
pub(crate) fn file_name(path: &str) -> (r: Option<&str>)
    ensures
        text_view(r) == path_file_name(path@),
{
    Path::new(path).file_name().and_then(|name| name.to_str())
}

/// `Path::with_extension` with an empty extension: the path with the
/// extension of its file name removed.
#[verifier::external_body]
pub(crate) fn without_extension(path: &str) -> (r: String)
    ensures
        r@ == path_without_extension(path@),
{
    Path::new(path).with_extension("").to_string_lossy().into_owned()
}

/// `Path::join`: `path` adjoined to `base`.
#[verifier::external_body]
pub(crate) fn join(base: &str, path: &str) -> (r: String)
    ensures
        r@ == path_join(base@, path@),
{
    Path::new(base).join(path).to_string_lossy().into_owned()
}

/// `Path::strip_prefix`: `path` without the prefix `base`, or an error
/// where `base` is no prefix of `path`.
#[verifier::external_body]
pub(crate) fn strip_prefix(path: &str, base: &str) -> (r: Result<String, StripPrefixError>)
    ensures
        match r {
            Ok(rest) => path_strip_prefix(path@, base@) == Some(rest@),
            Err(_) => path_strip_prefix(path@, base@) is None,
        },
{
    Path::new(path).strip_prefix(base).map(|rest| rest.to_string_lossy().into_owned())
}

/// `Path::parent`: the path without its final component, or nothing where
/// the path ends in a root or is empty.
#[verifier::external_body]
pub(crate) fn parent(path: &str) -> (r: Option<&str>)
    ensures
        text_view(r) == path_parent(path@),
{
    Path::new(path).parent().and_then(|parent| parent.to_str())
}

} // verus!
