//! Directories: an embedded one and one on disk, enumerated alike.
//!
//! The library does not read the disk. To enumerate a directory on disk the
//! caller reads it and hands over the outcome as it came: the failure of the
//! read, or one `DirChild` for each child found and the failure for each
//! child that could not be looked at. What becomes of a failure, and which of
//! the children become entries, is decided here.

use vstd::prelude::*;
use include_dir::Dir;
use crate::embedded::embedded_files;
use crate::embedded::files_of;
use crate::embedded::files_view;
use crate::entry::AnyFileEntry;
use crate::entry::CtFileEntry;
use crate::entry::EntryModel;
use crate::entry::FetchedModel;
use crate::entry::RtFileEntry;
use crate::entry::Source;
use crate::error::EntryError;
use crate::path::relative_to;

verus! {

/// One child of a directory on disk, as a read of the directory reports it.
#[derive(Debug, Clone)]
pub struct DirChild {
    /// The child's path, as the read returned it.
    pub path: String,
    /// Whether the child is a regular file.
    pub is_file: bool,
}

/// A child with its path as text.
pub struct ChildModel {
    pub path: Seq<char>,
    pub is_file: bool,
}

impl View for DirChild {
    type V = ChildModel;

    open spec fn view(&self) -> ChildModel {
        ChildModel { path: self.path@, is_file: self.is_file }
    }
}

/// The outcome of the caller's read of a directory: `None` where nothing was
/// read; the failure where the directory could not be read; else, for each
/// child in the order of the read, the child or the failure to look at it.
pub type Listing = Option<Result<Vec<Result<DirChild, std::io::Error>>, std::io::Error>>;

/// A listing with paths as text.
pub type ListingModel = Option<Result<Seq<Result<ChildModel, std::io::Error>>, std::io::Error>>;

/// One item of a listing, with its path as text.
pub open spec fn child_view(child: Result<DirChild, std::io::Error>) -> Result<
    ChildModel,
    std::io::Error,
> {
    match child {
        Ok(c) => Ok(c@),
        Err(e) => Err(e),
    }
}

/// The items of a listing, with paths as text.
pub open spec fn children_view(children: Seq<Result<DirChild, std::io::Error>>) -> Seq<
    Result<ChildModel, std::io::Error>,
> {
    children.map_values(|c: Result<DirChild, std::io::Error>| child_view(c))
}

/// A listing with paths as text.
pub open spec fn listing_view(listing: Listing) -> ListingModel {
    match listing {
        Some(Ok(children)) => Some(Ok(children_view(children@))),
        Some(Err(e)) => Some(Err(e)),
        None => None,
    }
}

/// Whether `entries` are what `expected` says, one for one and in order.
pub open spec fn entries_are(entries: Seq<AnyFileEntry>, expected: Seq<EntryModel>) -> bool {
    &&& entries.len() == expected.len()
    &&& forall|i: int| 0 <= i < entries.len() ==> (#[trigger] entries[i])@ == expected[i]
}

/// The entry for the captured file `file`: its path inside the embedded tree
/// and its bytes.
pub open spec fn embedded_entry(file: (Seq<char>, Seq<u8>)) -> EntryModel {
    EntryModel { path: file.0, source: Source::Embedded(file.1) }
}

/// The entry for the file on disk at `absolute`, seen from `base`.
pub open spec fn disk_entry(absolute: Seq<char>, base: Seq<char>) -> EntryModel {
    EntryModel { path: relative_to(absolute, base), source: Source::Disk(absolute) }
}

/// Whether an item of a listing is a child that is a regular file.
pub open spec fn is_regular_file(child: Result<ChildModel, std::io::Error>) -> bool {
    child matches Ok(c) && c.is_file
}

/// The entry that an item of a listing gives under `base`: one for a regular
/// file, none for any other child and none for a child that could not be
/// looked at.
pub open spec fn regular_file_entry(
    child: Result<ChildModel, std::io::Error>,
    base: Seq<char>,
) -> Option<EntryModel> {
    match child {
        Ok(c) => if c.is_file {
            Some(disk_entry(c.path, base))
        } else {
            None
        },
        Err(_) => None,
    }
}

/// The entries of the directory `base` whose read gave `children`: the
/// regular files among them, in the order of the read.
pub open spec fn disk_entries(
    children: Seq<Result<ChildModel, std::io::Error>>,
    base: Seq<char>,
) -> Seq<EntryModel> {
    children.filter_map(|c: Result<ChildModel, std::io::Error>| regular_file_entry(c, base))
}

/// Every entry made from a listing stands for a child that the listing
/// reports as a regular file.
proof fn lemma_disk_entry_is_regular_file(
    children: Seq<Result<ChildModel, std::io::Error>>,
    base: Seq<char>,
    i: int,
)
    requires
        0 <= i < disk_entries(children, base).len(),
    ensures
        exists|j: int|
            0 <= j < children.len() && is_regular_file(#[trigger] children[j]) && disk_entries(
                children,
                base,
            )[i] == disk_entry(children[j]->Ok_0.path, base),
    decreases children.len(),
{
    let rest = children.drop_last();
    if !is_regular_file(children.last()) || i < disk_entries(rest, base).len() {
        lemma_disk_entry_is_regular_file(rest, base, i);
    }
}

/// Every child that a listing reports as a regular file has its entry.
proof fn lemma_regular_file_is_disk_entry(
    children: Seq<Result<ChildModel, std::io::Error>>,
    base: Seq<char>,
    j: int,
)
    requires
        0 <= j < children.len(),
        is_regular_file(children[j]),
    ensures
        exists|i: int|
            0 <= i < disk_entries(children, base).len() && #[trigger] disk_entries(
                children,
                base,
            )[i] == disk_entry(children[j]->Ok_0.path, base),
    decreases children.len(),
{
    let rest = children.drop_last();
    if j == children.len() - 1 {
        let i: int = disk_entries(rest, base).len() as int;
        assert(disk_entries(children, base)[i] == disk_entry(children[j]->Ok_0.path, base));
    } else {
        lemma_regular_file_is_disk_entry(rest, base, j);
        let i: int = choose|i: int|
            0 <= i < disk_entries(rest, base).len() && #[trigger] disk_entries(rest, base)[i]
                == disk_entry(rest[j]->Ok_0.path, base);
        assert(disk_entries(children, base)[i] == disk_entries(rest, base)[i]);
    }
}

/// What every kind of directory can do.
pub trait DirOps {
    /// The entries of the directory, given the outcome of the caller's read.
    spec fn entries(&self, listing: ListingModel) -> Seq<EntryModel>;

    /// The files that stand directly in the directory. `listing` is the
    /// outcome of reading the directory on disk, for a directory that is on
    /// disk.
    fn file_entries(&self, listing: Listing) -> (entries: Vec<AnyFileEntry>)
        ensures
            entries_are(entries@, self.entries(listing_view(listing))),
    ;
}

/// A directory captured in the executable image at build time.
#[derive(Debug, Clone, PartialEq)]
pub struct CtDir {
    pub dir: &'static Dir<'static>,
}

impl CtDir {
    /// An embedded directory enumerates the captured files and nothing else:
    /// its entries are as many as the files of the image, and each has the
    /// path and the bytes of the file at its place, and no path on disk.
    pub proof fn lemma_entries_are_captured(
        self,
        listing: ListingModel,
        fetched: FetchedModel,
        i: int,
    )
        requires
            0 <= i < embedded_files(*self.dir).len(),
        ensures
            self.entries(listing).len() == embedded_files(*self.dir).len(),
            self.entries(listing)[i].path == embedded_files(*self.dir)[i].0,
            self.entries(listing)[i].absolute_path() is None,
            self.entries(listing)[i].bytes(fetched) == Ok::<Seq<u8>, EntryError>(
                embedded_files(*self.dir)[i].1,
            ),
    {
    }

    /// Enumerating an embedded directory twice gives the same entries in the
    /// same order, whatever was read from disk in between.
    pub proof fn lemma_enumeration_is_stable(self, first: ListingModel, second: ListingModel)
        ensures
            self.entries(first) == self.entries(second),
    {
    }
}

impl DirOps for CtDir {
    /// One entry for each captured file, in the order of the image; the
    /// listing plays no part.
    open spec fn entries(&self, listing: ListingModel) -> Seq<EntryModel> {
        embedded_files(*self.dir).map_values(|f: (Seq<char>, Seq<u8>)| embedded_entry(f))
    }

    fn file_entries(&self, _listing: Listing) -> (entries: Vec<AnyFileEntry>) {
        let files = files_of(self.dir);
        let ghost captured = files@;
        let mut entries: Vec<AnyFileEntry> = Vec::new();
        for file in it: files
            invariant
                it.seq() == captured,
                files_view(captured) == embedded_files(*self.dir),
                entries@.len() == it.index(),
                forall|i: int|
                    0 <= i < it.index() ==> (#[trigger] entries@[i])@ == embedded_entry(
                        files_view(captured)[i],
                    ),
        {
            let (relative_path, contents) = file;
            entries.push(AnyFileEntry::Ct(CtFileEntry::new(relative_path, contents)));
        }
        entries
    }
}

/// A directory on disk.
#[derive(Debug, Clone, PartialEq)]
pub struct RtDir {
    pub path: String,
}

impl RtDir {
    /// The path of the directory.
    pub fn path(&self) -> (p: &String)
        ensures
            *p == self.path,
    {
        &self.path
    }

    /// A directory that could not be read, or was not read, has no
    /// entries: the failure is not handed on.
    pub proof fn lemma_unreadable_is_empty(self, listing: ListingModel)
        requires
            !(listing matches Some(Ok(_))),
        ensures
            self.entries(listing) == Seq::<EntryModel>::empty(),
    {
    }

    /// A directory in which the read found nothing has no entries.
    pub proof fn lemma_empty_is_empty(self)
        ensures
            self.entries(Some(Ok(Seq::empty()))) == Seq::<EntryModel>::empty(),
    {
    }

    /// Every entry of a directory on disk refers to a child that the read
    /// reported as a regular file; a subdirectory, or anything else that is
    /// no regular file, gives no entry.
    pub proof fn lemma_entries_are_regular_files(self, listing: ListingModel, i: int)
        requires
            0 <= i < self.entries(listing).len(),
        ensures
            listing matches Some(Ok(children)) && exists|j: int|
                0 <= j < children.len() && is_regular_file(#[trigger] children[j])
                    && self.entries(listing)[i] == disk_entry(children[j]->Ok_0.path, self.path@),
    {
        lemma_disk_entry_is_regular_file(listing->0->Ok_0, self.path@, i);
    }

    /// Every child that the read reported as a regular file is enumerated.
    pub proof fn lemma_regular_files_are_entries(
        self,
        children: Seq<Result<ChildModel, std::io::Error>>,
        j: int,
    )
        requires
            0 <= j < children.len(),
            is_regular_file(children[j]),
        ensures
            exists|i: int|
                0 <= i < self.entries(Some(Ok(children))).len() && #[trigger] self.entries(
                    Some(Ok(children)),
                )[i] == disk_entry(children[j]->Ok_0.path, self.path@),
    {
        lemma_regular_file_is_disk_entry(children, self.path@, j);
        let i: int = choose|i: int|
            0 <= i < disk_entries(children, self.path@).len() && #[trigger] disk_entries(
                children,
                self.path@,
            )[i] == disk_entry(children[j]->Ok_0.path, self.path@);
        assert(self.entries(Some(Ok(children)))[i] == disk_entry(
            children[j]->Ok_0.path,
            self.path@,
        ));
    }

    /// Every entry of a directory on disk has a path on disk, and its
    /// relative path is that path as seen from the directory: the rest of it
    /// below the directory's own path, or the path unchanged where it does
    /// not lie under the directory.
    pub proof fn lemma_entry_paths(self, listing: ListingModel, i: int)
        requires
            0 <= i < self.entries(listing).len(),
        ensures
            self.entries(listing)[i].absolute_path() is Some,
            self.entries(listing)[i].path == relative_to(
                self.entries(listing)[i].absolute_path()->0,
                self.path@,
            ),
    {
        self.lemma_entries_are_regular_files(listing, i);
    }
}

impl DirOps for RtDir {
    /// The regular files among the children that the read found, each with
    /// its path relative to the directory, in the order of the read; nothing
    /// where the read failed or there was none.
    open spec fn entries(&self, listing: ListingModel) -> Seq<EntryModel> {
        match listing {
            Some(Ok(children)) => disk_entries(children, self.path@),
            _ => Seq::empty(),
        }
    }

    fn file_entries(&self, listing: Listing) -> (entries: Vec<AnyFileEntry>)
        ensures
            !(listing matches Some(Ok(_))) ==> entries@.len() == 0,
            listing matches Some(Ok(children)) && children@.len() == 0 ==> entries@.len() == 0,
    {
        let mut entries: Vec<AnyFileEntry> = Vec::new();
        if let Some(Ok(children)) = listing {
            let ghost found = children_view(children@);
            for child in it: children
                invariant
                    children_view(it.seq()) == found,
                    entries_are(entries@, disk_entries(found.take(it.index()), self.path@)),
            {
                proof {
                    let i: int = it.index();
                    assert(found.take(i + 1).drop_last() =~= found.take(i));
                }
                if let Ok(found_child) = child {
                    if found_child.is_file {
                        let entry = RtFileEntry::under(found_child.path, self.path.as_str());
                        entries.push(AnyFileEntry::Rt(entry));
                    }
                }
            }
            assert(found.take(found.len() as int) =~= found);
        }
        entries
    }
}

/// A directory of either kind.
pub enum AnyDir {
    Ct(CtDir),
    Rt(RtDir),
}

impl AnyDir {
    /// The directory on disk that this is, if it is one.
    pub fn as_rt(&self) -> (rt: Option<&RtDir>)
        ensures
            *self matches AnyDir::Rt(dir) ==> rt == Some(&dir),
            *self is Ct ==> rt is None,
    {
        match self {
            AnyDir::Rt(rt) => Some(rt),
            _ => None,
        }
    }
}

impl DirOps for AnyDir {
    open spec fn entries(&self, listing: ListingModel) -> Seq<EntryModel> {
        match self {
            AnyDir::Ct(dir) => dir.entries(listing),
            AnyDir::Rt(dir) => dir.entries(listing),
        }
    }

    fn file_entries(&self, listing: Listing) -> (entries: Vec<AnyFileEntry>) {
        match self {
            AnyDir::Ct(c) => c.file_entries(listing),
            AnyDir::Rt(r) => r.file_entries(listing),
        }
    }
}

/// The directory on disk at `path`.
pub fn anydir_rt(path: String) -> (dir: AnyDir)
    ensures
        dir == AnyDir::Rt(RtDir { path }),
{
    AnyDir::Rt(RtDir { path })
}

} // verus!
