//! Path resolution: anchoring a path at the current directory.
//!
//! Paths are held as text. Whether a path is absolute and how one path is
//! joined onto another are decided by the standard library's `Path`, which
//! follows the conventions of the platform the library is built for; both
//! are pure functions of the paths' text.

use vstd::prelude::*;
use crate::text::{string_view, text_view};

verus! {

/// Whether the path written as `path` is absolute: the answer of
/// `std::path::Path::is_absolute`.
pub uninterp spec fn path_is_absolute(path: Seq<char>) -> bool;

/// The path that results from adjoining `path` to `base`: the text of what
/// `std::path::Path::join` returns.
pub uninterp spec fn path_join(base: Seq<char>, path: Seq<char>) -> Seq<char>;

/// What resolving `value` gives: an absolute path stays as it is, any other
/// is joined onto the current directory, and without a current directory
/// there is no result for it.
pub open spec fn resolved(value: Seq<char>, current_dir: Option<Seq<char>>) -> Option<Seq<char>> {
    if path_is_absolute(value) {
        Some(value)
    } else {
        match current_dir {
            Some(dir) => Some(path_join(dir, value)),
            None => None,
        }
    }
}

/// Calls `std::path::Path::is_absolute` on the path written as `path`. The
/// result is taken on trust to be `path_is_absolute` of that text.
#[verifier::external_body]
pub(crate) fn is_absolute(path: &str) -> (r: bool)
    ensures
        r == path_is_absolute(path@),
{
    std::path::Path::new(path).is_absolute()
}

/// Calls `std::path::Path::join` with `base` as the receiver and `path` as
/// the argument. The result, as text, is taken on trust to be `path_join` of
/// the two. Both inputs are valid Unicode, so the joined path is too and
/// its conversion to text loses nothing.
#[verifier::external_body]
pub(crate) fn join(base: &str, path: &str) -> (r: String)
    ensures
        r@ == path_join(base@, path@),
{
    std::path::Path::new(base).join(path).to_string_lossy().into_owned()
}

/// Turns `value` into a path anchored at `current_dir`.
///
/// An absolute `value` is returned unchanged and `current_dir` is not looked
/// at. Any other `value` is joined onto `current_dir`; the result is `None`
/// exactly when `value` is not absolute and no current directory is known.
/// No symbolic link is followed and nothing on disk is read.
pub fn make_path_absolute(value: &str, current_dir: Option<&str>) -> (r: Option<String>)
    ensures
        string_view(r) == resolved(value@, text_view(current_dir)),
{
    if is_absolute(value) {
        Some(value.to_owned())
    } else {
        match current_dir {
            Some(dir) => Some(join(dir, value)),
            None => None,
        }
    }
}

/// A path that is not absolute resolves to the current directory joined
/// with it.
pub proof fn lemma_relative_is_joined(path: Seq<char>, current_dir: Seq<char>)
    requires
        !path_is_absolute(path),
    ensures
        resolved(path, Some(current_dir)) == Some(path_join(current_dir, path)),
{
}

/// An absolute path resolves to itself, whatever the current directory is
/// and whether or not one is known.
pub proof fn lemma_absolute_is_unchanged(path: Seq<char>, current_dir: Option<Seq<char>>)
    requires
        path_is_absolute(path),
    ensures
        resolved(path, current_dir) == Some(path),
{
}

/// Resolving is idempotent on absolute paths: resolving the result of
/// resolving an absolute path gives that same result again.
pub proof fn lemma_resolve_twice(
    path: Seq<char>,
    first_dir: Option<Seq<char>>,
    second_dir: Option<Seq<char>>,
)
    requires
        path_is_absolute(path),
    ensures
        resolved(path, first_dir) is Some,
        resolved(resolved(path, first_dir).unwrap(), second_dir) == resolved(path, first_dir),
{
}

} // verus!
