//! The directory image that `include_dir` puts into the executable.

use vstd::prelude::*;
use include_dir::Dir;

verus! {

/// `include_dir::Dir`: a directory captured at build time. It is held by
/// reference and never looked into; what it contains goes by the name
/// `embedded_files`.
#[verifier::external_type_specification]
#[verifier::external_body]
pub struct ExDir<'a>(Dir<'a>);

/// The files that stand directly in `dir`, in the order in which
/// `include_dir::Dir::files` yields them: for each one its path inside the
/// embedded tree and its bytes.
pub uninterp spec fn embedded_files(dir: Dir<'static>) -> Seq<(Seq<char>, Seq<u8>)>;

/// Paths and bytes as sequences.
pub open spec fn files_view(files: Seq<(String, &'static [u8])>) -> Seq<(Seq<char>, Seq<u8>)> {
    files.map_values(|f: (String, &'static [u8])| (f.0@, f.1@))
}

/// Walks `include_dir::Dir::files` and hands out, for each file, what
/// `include_dir::File::path` and `include_dir::File::contents` return. The
/// contract claims that these are the files named by `embedded_files`, in the
/// same order. A file's path is stored as a string, so its text is had
/// without loss.
#[verifier::external_body]
pub(crate) fn files_of(dir: &'static Dir<'static>) -> (files: Vec<(String, &'static [u8])>)
    ensures
        files_view(files@) == embedded_files(*dir),
{
    dir.files().map(|f| (f.path().to_string_lossy().into_owned(), f.contents())).collect()
}

} // verus!
