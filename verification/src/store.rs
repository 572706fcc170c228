//! Where cache entries live on disk, and how much room they take.

use vstd::prelude::*;
use crate::key::CacheKey;
use crate::key::KeyModel;
use crate::text::chars_of;

verus! {

/// A directory path and a name under it: joined by one `/`, unless the
/// directory is empty or ends with `/` already.
pub open spec fn join_path(dir: Seq<char>, name: Seq<char>) -> Seq<char> {
    if dir.len() == 0 || dir.last() == '/' {
        dir + name
    } else {
        dir + seq!['/'] + name
    }
}

/// The cache directory under an application cache root.
pub open spec fn cache_dir(app_root: Seq<char>) -> Seq<char> {
    join_path(app_root, "images"@)
}

/// The file of a key in a cache directory.
pub open spec fn entry_path(dir: Seq<char>, key: KeyModel) -> Seq<char> {
    join_path(dir, key.file_name())
}

/// Joins a directory path and a name.
pub fn join(dir: &str, name: &str) -> (path: String)
    ensures
        path@ == join_path(dir@, name@),
{
    let chars = chars_of(dir);
    let mut path = String::from_str(dir);
    if chars.len() > 0 && chars[chars.len() - 1] != '/' {
        proof {
            reveal_strlit("/");
            assert("/"@ =~= seq!['/']);
        }
        path.append("/");
    }
    path.append(name);
    path
}

/// The directory that holds every cache entry, one flat level of files.
pub struct CacheStore {
    dir: String,
}

impl View for CacheStore {
    type V = Seq<char>;

    closed spec fn view(&self) -> Seq<char> {
        self.dir@
    }
}

impl CacheStore {
    /// The store under `app_root`: its `images` directory.
    pub fn new(app_root: &str) -> (store: CacheStore)
        ensures
            store@ == cache_dir(app_root@),
    {
        CacheStore { dir: join(app_root, "images") }
    }

    /// The directory of the store.
    pub fn dir(&self) -> (dir: &str)
        ensures
            dir@ == self@,
    {
        self.dir.as_str()
    }

    /// The path of the file that holds the entry for `key`.
    pub fn path_for(&self, key: &CacheKey) -> (path: String)
        ensures
            path@ == entry_path(self@, key@),
    {
        let name = key.file_name();
        join(self.dir.as_str(), name.as_str())
    }
}

/// What a directory listing says of one entry.
#[derive(Clone, Copy, PartialEq, Eq, Debug, Structural)]
pub enum EntryInfo {
    /// The entry, or its metadata, could not be read.
    Unreadable,
    /// A regular file of this many bytes.
    File { len: u64 },
    /// A directory, or anything else that is no regular file.
    Other,
}

/// The bytes that one entry counts for: its length if it is a regular file.
pub open spec fn entry_bytes(entry: EntryInfo) -> nat {
    match entry {
        EntryInfo::File { len } => len as nat,
        _ => 0,
    }
}

/// The bytes held by the regular files of a listing.
pub open spec fn listed_bytes(entries: Seq<EntryInfo>) -> nat
    decreases entries.len(),
{
    if entries.len() == 0 {
        0
    } else {
        listed_bytes(entries.drop_last()) + entry_bytes(entries.last())
    }
}

/// A count of bytes as a `u64`, capped at `u64::MAX`.
pub open spec fn capped(bytes: nat) -> u64 {
    if bytes <= u64::MAX {
        bytes as u64
    } else {
        u64::MAX
    }
}

/// Adds up the sizes of the regular files in a listing; entries that could
/// not be read and entries that are no regular files count for nothing. A
/// sum beyond `u64::MAX` is reported as `u64::MAX`.
pub fn total_size(entries: &[EntryInfo]) -> (total: u64)
    ensures
        total == capped(listed_bytes(entries@)),
{
    let mut total: u64 = 0;
    let mut i: usize = 0;
    while i < entries.len()
        invariant
            i <= entries@.len(),
            total == capped(listed_bytes(entries@.take(i as int))),
        decreases entries.len() - i,
    {
        proof {
            assert(entries@.take(i + 1).drop_last() =~= entries@.take(i as int));
        }
        match entries[i] {
            EntryInfo::File { len } => {
                total = total.saturating_add(len);
            },
            _ => {},
        }
        i += 1;
    }
    assert(entries@.take(i as int) =~= entries@);
    total
}

/// Appending a listing to another adds their bytes.
pub proof fn lemma_listed_bytes_concat(a: Seq<EntryInfo>, b: Seq<EntryInfo>)
    ensures
        listed_bytes(a + b) == listed_bytes(a) + listed_bytes(b),
    decreases b.len(),
{
    if b.len() == 0 {
        assert(a + b =~= a);
    } else {
        assert((a + b).drop_last() =~= a + b.drop_last());
        lemma_listed_bytes_concat(a, b.drop_last());
    }
}

/// Directories, unreadable entries and the like never change the total.
pub proof fn lemma_only_files_count(entries: Seq<EntryInfo>, extra: EntryInfo)
    requires
        !(extra is File),
    ensures
        listed_bytes(entries.push(extra)) == listed_bytes(entries),
{
    assert(entries.push(extra).drop_last() =~= entries);
}

/// An empty directory holds no bytes.
pub proof fn lemma_empty_listing_is_zero()
    ensures
        listed_bytes(Seq::<EntryInfo>::empty()) == 0,
        capped(listed_bytes(Seq::<EntryInfo>::empty())) == 0,
{
}

} // verus!
