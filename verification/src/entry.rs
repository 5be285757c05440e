//! File entries: one file of a directory, with its path and the means to
//! read its content.
//!
//! An entry is either captured in the executable image or found on disk. The
//! library itself never touches the disk: the caller reads the file that
//! `absolute_path` names and hands the outcome to `read_bytes` or
//! `read_string`, which decide what the entry's content is.

use vstd::prelude::*;
use vstd::slice::slice_to_vec;
use vstd::utf8::decode_utf8;
use vstd::utf8::decode_utf8_encode_utf8;
use vstd::utf8::encode_utf8;
use vstd::utf8::valid_utf8;
use crate::error::EntryError;
use crate::path::option_text;
use crate::path::relative_path;
use crate::path::relative_to;
use crate::text::decode;
use crate::text::decoded;
use crate::text::text_view;

verus! {

/// Where the content of an entry comes from.
pub enum Source {
    /// The bytes captured in the executable image.
    Embedded(Seq<u8>),
    /// The absolute path of a file on disk.
    Disk(Seq<char>),
}

/// What an entry is: its relative path and the source of its content.
pub struct EntryModel {
    pub path: Seq<char>,
    pub source: Source,
}

/// The outcome of the caller's read of an entry's file: `None` where nothing
/// was read, else the bytes of the file or the failure of the read.
pub type Fetched = Option<Result<Vec<u8>, std::io::Error>>;

/// The outcome of a read with the bytes as a sequence.
pub type FetchedModel = Option<Result<Seq<u8>, std::io::Error>>;

/// The outcome of a read with the bytes as a sequence.
pub open spec fn fetched_view(fetched: Fetched) -> FetchedModel {
    match fetched {
        Some(Ok(bytes)) => Some(Ok(bytes@)),
        Some(Err(e)) => Some(Err(e)),
        None => None,
    }
}

/// A result that carries bytes, seen as one that carries their sequence.
pub open spec fn bytes_view(r: Result<Vec<u8>, EntryError>) -> Result<Seq<u8>, EntryError> {
    match r {
        Ok(bytes) => Ok(bytes@),
        Err(e) => Err(e),
    }
}

/// The text of an optional string slice.
pub open spec fn option_str_text(s: Option<&str>) -> Option<Seq<char>> {
    match s {
        Some(t) => Some(t@),
        None => None,
    }
}

impl EntryModel {
    /// The path on disk, which only an entry found on disk has.
    pub open spec fn absolute_path(self) -> Option<Seq<char>> {
        match self.source {
            Source::Embedded(_) => None,
            Source::Disk(absolute) => Some(absolute),
        }
    }

    /// The content of the entry, given the outcome of the caller's read of
    /// its file. An embedded entry has its captured bytes whatever was read.
    /// An entry on disk has what the read gave: its bytes, or its error, or
    /// `NotRead` where there was no read.
    pub open spec fn bytes(self, fetched: FetchedModel) -> Result<Seq<u8>, EntryError> {
        match self.source {
            Source::Embedded(bytes) => Ok(bytes),
            Source::Disk(_) => match fetched {
                Some(Ok(bytes)) => Ok(bytes),
                Some(Err(e)) => Err(EntryError::Io(e)),
                None => Err(EntryError::NotRead),
            },
        }
    }

    /// The content of the entry as text: its bytes decoded as UTF-8.
    pub open spec fn text(self, fetched: FetchedModel) -> Result<Seq<char>, EntryError> {
        match self.bytes(fetched) {
            Ok(bytes) => decoded(bytes),
            Err(e) => Err(e),
        }
    }
}

/// Where the bytes of an entry can be had, its text is those bytes decoded:
/// where they are UTF-8, the characters that they encode, which encode back
/// to the same bytes; where they are not, `InvalidData`.
pub proof fn lemma_text_decodes_bytes(entry: EntryModel, fetched: FetchedModel)
    requires
        entry.bytes(fetched) is Ok,
    ensures
        valid_utf8(entry.bytes(fetched)->Ok_0) ==> entry.text(fetched) is Ok && encode_utf8(
            entry.text(fetched)->Ok_0,
        ) == entry.bytes(fetched)->Ok_0 && entry.text(fetched)->Ok_0 == decode_utf8(
            entry.bytes(fetched)->Ok_0,
        ),
        !valid_utf8(entry.bytes(fetched)->Ok_0) ==> entry.text(fetched) == Err::<
            Seq<char>,
            EntryError,
        >(EntryError::InvalidData),
{
    if valid_utf8(entry.bytes(fetched)->Ok_0) {
        decode_utf8_encode_utf8(entry.bytes(fetched)->Ok_0);
    }
}

/// Where reading an entry as text fails with `InvalidData`, its bytes can
/// still be had, and they are not UTF-8.
pub proof fn lemma_invalid_data_leaves_bytes(entry: EntryModel, fetched: FetchedModel)
    requires
        entry.text(fetched) == Err::<Seq<char>, EntryError>(EntryError::InvalidData),
    ensures
        entry.bytes(fetched) is Ok,
        !valid_utf8(entry.bytes(fetched)->Ok_0),
{
}

/// Where the bytes of an entry cannot be had, reading it as text fails in
/// the same way.
pub proof fn lemma_text_fails_as_bytes(entry: EntryModel, fetched: FetchedModel)
    requires
        entry.bytes(fetched) is Err,
    ensures
        entry.text(fetched) == Err::<Seq<char>, EntryError>(entry.bytes(fetched)->Err_0),
{
}

/// What every kind of file entry can do.
pub trait FileEntry: View<V = EntryModel> {
    /// The entry's relative path.
    fn path(&self) -> (p: &str)
        ensures
            p@ == self@.path,
    ;

    /// The entry's path on disk, if it has one.
    fn absolute_path(&self) -> (p: Option<&str>)
        ensures
            option_str_text(p) == self@.absolute_path(),
    ;

    /// The full content of the entry. `fetched` is the outcome of reading
    /// the file at `absolute_path`, or `None` where nothing was read.
    fn read_bytes(&self, fetched: Fetched) -> (content: Result<Vec<u8>, EntryError>)
        ensures
            bytes_view(content) == self@.bytes(fetched_view(fetched)),
    ;

    /// The content of the entry decoded as UTF-8. `fetched` is as for
    /// `read_bytes`.
    fn read_string(&self, fetched: Fetched) -> (content: Result<String, EntryError>)
        ensures
            text_view(content) == self@.text(fetched_view(fetched)),
    ;
}

/// A file captured in the executable image at build time.
#[derive(Debug, Clone)]
pub struct CtFileEntry {
    relative_path: String,
    contents: &'static [u8],
}

impl View for CtFileEntry {
    type V = EntryModel;

    closed spec fn view(&self) -> EntryModel {
        EntryModel { path: self.relative_path@, source: Source::Embedded(self.contents@) }
    }
}

impl CtFileEntry {
    /// The entry for the captured file at `relative_path` inside the embedded
    /// tree, with the bytes `contents`.
    pub(crate) fn new(relative_path: String, contents: &'static [u8]) -> (entry: Self)
        ensures
            entry@ == (EntryModel { path: relative_path@, source: Source::Embedded(contents@) }),
    {
        CtFileEntry { relative_path, contents }
    }

    /// The relative path as text.
    pub fn to_string(&self) -> (text: String)
        ensures
            text@ == self@.path,
    {
        self.relative_path.clone()
    }

    /// An embedded entry has no path on disk, and its content is the bytes
    /// that were captured, whatever the caller read.
    pub proof fn lemma_embedded(self, fetched: FetchedModel)
        ensures
            self@.source is Embedded,
            self@.absolute_path() is None,
            self@.bytes(fetched) == Ok::<Seq<u8>, EntryError>(self@.source->Embedded_0),
    {
    }
}

impl FileEntry for CtFileEntry {
    fn path(&self) -> (p: &str) {
        self.relative_path.as_str()
    }

    fn absolute_path(&self) -> (p: Option<&str>)
        ensures
            p is None,
    {
        None
    }

    fn read_bytes(&self, _fetched: Fetched) -> (content: Result<Vec<u8>, EntryError>)
        ensures
            content matches Ok(bytes) && self@.source == Source::Embedded(bytes@),
    {
        Ok(slice_to_vec(self.contents))
    }

    fn read_string(&self, _fetched: Fetched) -> (content: Result<String, EntryError>) {
        decode(self.contents)
    }
}

impl AsRef<str> for CtFileEntry {
    fn as_ref(&self) -> (p: &str)
        ensures
            p@ == self@.path,
    {
        self.path()
    }
}

/// A file on disk.
#[derive(Debug, Clone)]
pub struct RtFileEntry {
    absolute_path: String,
    relative_path: String,
}

impl View for RtFileEntry {
    type V = EntryModel;

    closed spec fn view(&self) -> EntryModel {
        EntryModel { path: self.relative_path@, source: Source::Disk(self.absolute_path@) }
    }
}

impl RtFileEntry {
    /// The entry for the file at `absolute_path`, with its path relative to
    /// `base`; where the file does not lie under `base`, the relative path is
    /// `absolute_path` unchanged.
    pub(crate) fn under(absolute_path: String, base: &str) -> (entry: Self)
        ensures
            entry@ == (EntryModel {
                path: relative_to(absolute_path@, base@),
                source: Source::Disk(absolute_path@),
            }),
    {
        let relative_path = relative_path(absolute_path.as_str(), base);
        RtFileEntry { absolute_path, relative_path }
    }

    /// The entry for the file at `absolute_path`, with its path relative to
    /// the working directory. `cwd` is the outcome of asking for the working
    /// directory: where that failed there is no entry, and the error is the
    /// one that was reported.
    pub fn from_path(absolute_path: String, cwd: Result<String, std::io::Error>) -> (entry: Result<
        Self,
        EntryError,
    >)
        ensures
            cwd matches Ok(dir) ==> entry matches Ok(e) && e@ == (EntryModel {
                path: relative_to(absolute_path@, dir@),
                source: Source::Disk(absolute_path@),
            }),
            cwd matches Err(failure) ==> entry matches Err(e) && e == EntryError::Io(failure),
    {
        match cwd {
            Ok(dir) => Ok(RtFileEntry::under(absolute_path, dir.as_str())),
            Err(failure) => Err(EntryError::Io(failure)),
        }
    }

    /// The relative path as text.
    pub fn to_string(&self) -> (text: String)
        ensures
            text@ == self@.path,
    {
        self.relative_path.clone()
    }

    /// An entry on disk has a path on disk.
    pub proof fn lemma_on_disk(self)
        ensures
            self@.source is Disk,
            self@.absolute_path() is Some,
    {
    }
}

impl FileEntry for RtFileEntry {
    fn path(&self) -> (p: &str) {
        self.relative_path.as_str()
    }

    fn absolute_path(&self) -> (p: Option<&str>)
        ensures
            p is Some,
    {
        Some(self.absolute_path.as_str())
    }

    fn read_bytes(&self, fetched: Fetched) -> (content: Result<Vec<u8>, EntryError>) {
        match fetched {
            Some(Ok(bytes)) => Ok(bytes),
            Some(Err(failure)) => Err(EntryError::Io(failure)),
            None => Err(EntryError::NotRead),
        }
    }

    fn read_string(&self, fetched: Fetched) -> (content: Result<String, EntryError>) {
        match fetched {
            Some(Ok(bytes)) => decode(bytes.as_slice()),
            Some(Err(failure)) => Err(EntryError::Io(failure)),
            None => Err(EntryError::NotRead),
        }
    }
}

impl AsRef<str> for RtFileEntry {
    fn as_ref(&self) -> (p: &str)
        ensures
            p@ == self@.path,
    {
        self.path()
    }
}

/// A file entry of either kind.
#[derive(Debug, Clone)]
pub enum AnyFileEntry {
    Ct(CtFileEntry),
    Rt(RtFileEntry),
}

impl View for AnyFileEntry {
    type V = EntryModel;

    open spec fn view(&self) -> EntryModel {
        match self {
            AnyFileEntry::Ct(entry) => entry@,
            AnyFileEntry::Rt(entry) => entry@,
        }
    }
}

impl AnyFileEntry {
    /// The entry on disk for the file at `path`, relative to the working
    /// directory; `cwd` is as for `RtFileEntry::from_path`.
    pub fn from_path(path: String, cwd: Result<String, std::io::Error>) -> (entry: Result<
        Self,
        EntryError,
    >)
        ensures
            cwd matches Ok(dir) ==> entry matches Ok(e) && e is Rt && e@ == (EntryModel {
                path: relative_to(path@, dir@),
                source: Source::Disk(path@),
            }),
            cwd matches Err(failure) ==> entry matches Err(e) && e == EntryError::Io(failure),
    {
        match RtFileEntry::from_path(path, cwd) {
            Ok(rt_entry) => Ok(AnyFileEntry::Rt(rt_entry)),
            Err(e) => Err(e),
        }
    }

    /// The relative path as text.
    pub fn to_string(&self) -> (text: String)
        ensures
            text@ == self@.path,
    {
        match self {
            AnyFileEntry::Ct(entry) => entry.to_string(),
            AnyFileEntry::Rt(entry) => entry.to_string(),
        }
    }

    /// What an entry is says which kind it is: an embedded entry is the one
    /// whose content is captured bytes, an entry on disk the one whose
    /// content is a file on disk. An entry has a path on disk exactly if it
    /// is one on disk.
    pub proof fn lemma_kind(self)
        ensures
            self is Ct <==> self@.source is Embedded,
            self is Rt <==> self@.source is Disk,
            self is Rt <==> self@.absolute_path() is Some,
    {
        match self {
            AnyFileEntry::Ct(entry) => entry.lemma_embedded(None),
            AnyFileEntry::Rt(entry) => entry.lemma_on_disk(),
        }
    }
}

impl FileEntry for AnyFileEntry {
    fn path(&self) -> (p: &str) {
        match self {
            AnyFileEntry::Ct(entry) => entry.path(),
            AnyFileEntry::Rt(entry) => entry.path(),
        }
    }

    fn absolute_path(&self) -> (p: Option<&str>) {
        match self {
            AnyFileEntry::Ct(entry) => entry.absolute_path(),
            AnyFileEntry::Rt(entry) => entry.absolute_path(),
        }
    }

    fn read_bytes(&self, fetched: Fetched) -> (content: Result<Vec<u8>, EntryError>) {
        match self {
            AnyFileEntry::Ct(entry) => entry.read_bytes(fetched),
            AnyFileEntry::Rt(entry) => entry.read_bytes(fetched),
        }
    }

    fn read_string(&self, fetched: Fetched) -> (content: Result<String, EntryError>) {
        match self {
            AnyFileEntry::Ct(entry) => entry.read_string(fetched),
            AnyFileEntry::Rt(entry) => entry.read_string(fetched),
        }
    }
}

impl AsRef<str> for AnyFileEntry {
    fn as_ref(&self) -> (p: &str)
        ensures
            p@ == self@.path,
    {
        match self {
            AnyFileEntry::Ct(entry) => entry.as_ref(),
            AnyFileEntry::Rt(entry) => entry.as_ref(),
        }
    }
}

/// The entry on disk for the file at `path`, relative to the working
/// directory; `cwd` is the outcome of asking for the working directory.
pub fn anyfile_from_path(path: String, cwd: Result<String, std::io::Error>) -> (entry: Result<
    AnyFileEntry,
    EntryError,
>)
    ensures
        cwd matches Ok(dir) ==> entry matches Ok(e) && e is Rt && e@ == (EntryModel {
            path: relative_to(path@, dir@),
            source: Source::Disk(path@),
        }),
        cwd matches Err(failure) ==> entry matches Err(e) && e == EntryError::Io(failure),
{
    AnyFileEntry::from_path(path, cwd)
}

} // verus!
