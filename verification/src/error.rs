//! Why an entry's content could not be had.

use vstd::prelude::*;

verus! {

/// `std::io::Error`, carried through as it came: nothing is known of what it
/// holds, and an error handed back is the one that was handed in.
#[verifier::external_type_specification]
#[verifier::external_body]
pub struct ExIoError(std::io::Error);

/// The failure of a read, or of making an entry.
#[derive(Debug)]
pub enum EntryError {
    /// The bytes are not valid UTF-8.
    InvalidData,
    /// The file system refused; the error is the one it reported.
    Io(std::io::Error),
    /// The content lives on disk and the caller supplied no read of it.
    NotRead,
}

} // verus!
