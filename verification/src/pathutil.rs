//! Path decomposition through std's `Path` (Unix rules).

use vstd::prelude::*;
use std::path::Path;

verus! {

/// What `Path::extension` gives for a path: the text after the last `.` of
/// the file name, if the name has a `.` that is not its first character.
pub uninterp spec fn extension_of(p: Seq<char>) -> Option<Seq<char>>;

/// What `Path::file_name` gives for a path: its last normal component.
pub uninterp spec fn file_name_of(p: Seq<char>) -> Option<Seq<char>>;

/// What `Path::parent` gives for a path: the path without its last component.
pub uninterp spec fn parent_of(p: Seq<char>) -> Option<Seq<char>>;

/// What `Path::strip_prefix` gives for a path and a base: the rest of the
/// path when the base's components begin it.
pub uninterp spec fn strip_prefix_of(p: Seq<char>, base: Seq<char>) -> Option<Seq<char>>;

/// Calls `Path::extension` on the path `p` (a `&str`, so the parts are text
/// too). Claimed: the result is [`extension_of`] of `p`.
#[verifier::external_body]
pub(crate) fn path_extension(p: &str) -> (r: Option<String>)
    ensures
        r is Some == extension_of(p@) is Some,
        r is Some ==> r.unwrap()@ == extension_of(p@).unwrap(),
{
    Path::new(p).extension().and_then(|e| e.to_str()).map(|e| e.to_owned())
}

/// Calls `Path::file_name` on the path `p`. Claimed: the result is
/// [`file_name_of`] of `p`.
#[verifier::external_body]
pub(crate) fn path_file_name(p: &str) -> (r: Option<String>)
    ensures
        r is Some == file_name_of(p@) is Some,
        r is Some ==> r.unwrap()@ == file_name_of(p@).unwrap(),
{
    Path::new(p).file_name().and_then(|e| e.to_str()).map(|e| e.to_owned())
}

/// Calls `Path::parent` on the path `p`. Claimed: the result is
/// [`parent_of`] of `p`.
#[verifier::external_body]
pub(crate) fn path_parent(p: &str) -> (r: Option<String>)
    ensures
        r is Some == parent_of(p@) is Some,
        r is Some ==> r.unwrap()@ == parent_of(p@).unwrap(),
{
    Path::new(p).parent().and_then(|e| e.to_str()).map(|e| e.to_owned())
}

/// Calls `Path::strip_prefix` on the path `p` with the base `base`.
/// Claimed: the result is [`strip_prefix_of`] of the two.
#[verifier::external_body]
pub(crate) fn path_strip_prefix(p: &str, base: &str) -> (r: Option<String>)
    ensures
        r is Some == strip_prefix_of(p@, base@) is Some,
        r is Some ==> r.unwrap()@ == strip_prefix_of(p@, base@).unwrap(),
{
    Path::new(p).strip_prefix(base).ok().and_then(|e| e.to_str()).map(|e| e.to_owned())
}

/// What `glob::Pattern::new(pattern)` followed by `matches_path(path)`
/// gives: `None` when the pattern does not parse, else whether the path
/// matches it.
pub uninterp spec fn glob_match_of(pattern: Seq<char>, path: Seq<char>) -> Option<bool>;

/// Parses a glob pattern with `glob::Pattern::new` and, when it parses,
/// matches the path against it with `Pattern::matches_path`. Claimed: the
/// result is [`glob_match_of`] of the two texts.
#[verifier::external_body]
pub(crate) fn glob_match(pattern: &str, path: &str) -> (r: Option<bool>)
    ensures
        r == glob_match_of(pattern@, path@),
{
    glob::Pattern::new(pattern).ok().map(|g| g.matches_path(Path::new(path)))
}

/// What `Path::starts_with` gives: whether the base's components begin
/// the path.
pub uninterp spec fn path_starts_with_of(p: Seq<char>, base: Seq<char>) -> bool;

/// Calls `Path::starts_with`. Claimed: the result is
/// [`path_starts_with_of`] of the two paths.
#[verifier::external_body]
pub(crate) fn path_starts_with(p: &str, base: &str) -> (r: bool)
    ensures
        r == path_starts_with_of(p@, base@),
{
    Path::new(p).starts_with(base)
}

} // verus!
