//! Paths relative to a base directory.
//!
//! Paths are held as text. Whether one path lies under another, and what is
//! left of it below that other, is decided by the standard library's path
//! handling, component by component.

use vstd::prelude::*;

verus! {

/// What `std::path::Path::strip_prefix` makes of `path` and `base`: the rest
/// of `path` below `base`, or nothing where `base` is no prefix of `path`.
/// Prefixes are whole path components, in the path syntax that the library is
/// built for.
pub uninterp spec fn strip_prefix_of(path: Seq<char>, base: Seq<char>) -> Option<Seq<char>>;

/// The text of an optional string.
pub open spec fn option_text(s: Option<String>) -> Option<Seq<char>> {
    match s {
        Some(t) => Some(t@),
        None => None,
    }
}

/// `path` as seen from `base`: the rest of `path` below `base`, or `path`
/// itself where it does not lie under `base`.
pub open spec fn relative_to(path: Seq<char>, base: Seq<char>) -> Seq<char> {
    stripped_or_unchanged(path, strip_prefix_of(path, base))
}

/// `stripped` where there is one, else `path`.
pub open spec fn stripped_or_unchanged(path: Seq<char>, stripped: Option<Seq<char>>) -> Seq<char> {
    match stripped {
        Some(rest) => rest,
        None => path,
    }
}

/// Calls `std::path::Path::strip_prefix` on `path` with `base`. The contract
/// claims only that the outcome is the one named by `strip_prefix_of`: `None`
/// where the call fails, else the remaining path as text. The remainder is a
/// part of `path`, so turning it back into text loses nothing.
#[verifier::external_body]
fn strip_prefix(path: &str, base: &str) -> (rest: Option<String>)
    ensures
        option_text(rest) == strip_prefix_of(path@, base@),
{
    match std::path::Path::new(path).strip_prefix(base) {
        Ok(rest) => Some(rest.to_string_lossy().into_owned()),
        Err(_) => None,
    }
}

/// Picks the relative form of `path` once the stripping has been tried:
/// the stripped rest if there is one, a copy of `path` otherwise.
pub fn relative_or_unchanged(path: &str, stripped: Option<String>) -> (relative: String)
    ensures
        relative@ == stripped_or_unchanged(path@, option_text(stripped)),
{
    match stripped {
        Some(rest) => rest,
        None => path.to_owned(),
    }
}

/// The path of `path` relative to `base`; `path` unchanged where it does not
/// lie under `base`.
pub fn relative_path(path: &str, base: &str) -> (relative: String)
    ensures
        relative@ == relative_to(path@, base@),
{
    let stripped = strip_prefix(path, base);
    relative_or_unchanged(path, stripped)
}

} // verus!
