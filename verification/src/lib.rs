//! A uniform view of two sources of file content: a directory embedded into
//! the executable at build time, and a directory read from the host file
//! system at run time.
//!
//! A directory of either kind enumerates its files as entries, and an entry of
//! either kind gives its relative path and its content, as bytes or as UTF-8
//! text. The library decides and never reads the disk itself: for a directory
//! or an entry on disk the caller performs the read and hands in its outcome,
//! and every function here says in its contract what it makes of it.
//!
//! - [`ident`]: the identifier under which an embedded directory is stored.
//! - [`embedded`]: what the embedded image holds.
//! - [`path`]: paths relative to a base.
//! - [`text`]: decoding bytes as UTF-8.
//! - [`entry`]: file entries.
//! - [`dir`]: directories.
//! - [`error`]: the failures.

pub mod dir;
pub mod embedded;
pub mod entry;
pub mod error;
pub mod ident;
pub mod path;
pub mod text;

pub use dir::anydir_rt;
pub use dir::AnyDir;
pub use dir::CtDir;
pub use dir::DirChild;
pub use dir::DirOps;
pub use dir::Listing;
pub use dir::RtDir;
pub use entry::anyfile_from_path;
pub use entry::AnyFileEntry;
pub use entry::CtFileEntry;
pub use entry::Fetched;
pub use entry::FileEntry;
pub use entry::RtFileEntry;
pub use error::EntryError;
pub use ident::sanitize_identifier;
