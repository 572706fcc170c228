//! What holds of the cache operations when they run against the model disk.

use vstd::prelude::*;
use crate::fetch::downloaded;
use crate::fetch::served;
use crate::fetch::is_remote;
use crate::key::derived_key;
use crate::model::cache_size;
use crate::model::cleared;
use crate::model::clear_cache;
use crate::model::drive_clear;
use crate::model::drive_measure;
use crate::model::drive_resolve;
use crate::model::ended_with;
use crate::model::fetches;
use crate::model::measured;
use crate::model::path_of;
use crate::model::resolve;
use crate::model::stored_len;
use crate::model::Disk;
use crate::model::Remote;
use crate::model::Run;
use crate::model::StoredFile;
use crate::protocol::ReplyModel;
use crate::protocol::RequestModel;
use crate::store::capped;
use crate::store::entry_path;
use crate::store::join_path;
use crate::store::lemma_listed_bytes_concat;
use crate::store::listed_bytes;
use crate::store::EntryInfo;

verus! {

/// The path of an entry is never the path of the cache directory itself.
pub proof fn lemma_entry_is_not_the_directory(dir: Seq<char>, url: Seq<char>)
    ensures
        entry_path(dir, derived_key(url)) != dir,
{
    let name = derived_key(url).file_name();
    assert(name.len() >= 1);
    assert(join_path(dir, name).len() > dir.len());
}

/// Whether a request is a GET request, as a number.
pub open spec fn fetch_count(request: RequestModel) -> nat {
    if request is Fetch {
        1
    } else {
        0
    }
}

/// The GET requests among a few requests are counted one by one.
proof fn lemma_fetches_of_short(asked: Seq<RequestModel>)
    requires
        asked.len() <= 5,
    ensures
        asked.len() == 0 ==> fetches(asked) == 0,
        asked.len() == 2 ==> fetches(asked) == fetch_count(asked[0]) + fetch_count(asked[1]),
        asked.len() == 3 ==> fetches(asked) == fetch_count(asked[0]) + fetch_count(asked[1])
            + fetch_count(asked[2]),
        asked.len() == 4 ==> fetches(asked) == fetch_count(asked[0]) + fetch_count(asked[1])
            + fetch_count(asked[2]) + fetch_count(asked[3]),
        asked.len() == 5 ==> fetches(asked) == fetch_count(asked[0]) + fetch_count(asked[1])
            + fetch_count(asked[2]) + fetch_count(asked[3]) + fetch_count(asked[4]),
{
    reveal_with_fuel(fetches, 6);
    if asked.len() >= 1 {
        let a = asked.drop_last();
        if a.len() >= 1 {
            let b = a.drop_last();
            if b.len() >= 1 {
                let c = b.drop_last();
                if c.len() >= 1 {
                    let d = c.drop_last();
                    assert(d.len() <= 1);
                }
            }
        }
    }
}

/// A reference that is not an `http://` or `https://` URL comes back as it
/// is: nothing is asked of the disk or the network, and nothing changes.
pub proof fn lemma_local_reference_is_returned(disk: Disk, remote: Remote, url: Seq<char>)
    requires
        !is_remote(url),
    ensures
        resolve(disk, remote, url) == (Run {
            result: ended_with(url),
            disk,
            asked: Seq::<RequestModel>::empty(),
        }),
{
    reveal_with_fuel(drive_resolve, 2);
}

/// Writing a file keeps the disk well formed, leaves the file there with the
/// bytes written, and leaves every other path as it was.
pub proof fn lemma_with_file(disk: Disk, path: Seq<char>, bytes: Seq<u8>)
    requires
        disk.wf(),
        disk.present,
        path != disk.dir(),
        bytes.len() <= u64::MAX,
    ensures
        disk.with_file(path, bytes).wf(),
        disk.with_file(path, bytes).has_file(path),
        disk.with_file(path, bytes).files[disk.with_file(path, bytes).index_of(path)].bytes
            == bytes,
        forall|other: Seq<char>|
            other != path ==> (disk.with_file(path, bytes).has_file(other) <==> disk.has_file(
                other,
            )),
{
    let file = StoredFile { path, bytes };
    let after = disk.with_file(path, bytes);
    let at = if disk.has_file(path) {
        disk.index_of(path)
    } else {
        disk.files.len() as int
    };
    assert(after.files[at] == file);
    assert(after.has_file(path));
    assert forall|i: int| 0 <= i < after.files.len() implies (after.files[i].path == path <==> i
        == at) by {
        if i != at && i < disk.files.len() {
            assert(after.files[i] == disk.files[i]);
            if disk.has_file(path) {
                assert(disk.files[at].path == path);
            }
        }
    }
    assert(after.index_of(path) == at);
    assert forall|i: int, j: int| 0 <= i < j < after.files.len() implies after.files[i].path
        != after.files[j].path by {
        if i != at && j != at {
            assert(after.files[i] == disk.files[i]);
            assert(after.files[j] == disk.files[j]);
        }
    }
    assert forall|other: Seq<char>| other != path implies (after.has_file(other)
        <==> disk.has_file(other)) by {
        if after.has_file(other) {
            let i = choose|i: int| 0 <= i < after.files.len() && after.files[i].path == other;
            assert(i != at);
            assert(after.files[i] == disk.files[i]);
        }
        if disk.has_file(other) {
            let i = choose|i: int| 0 <= i < disk.files.len() && disk.files[i].path == other;
            assert(after.files[i].path == other);
        }
    }
}

/// A miss followed by a successful download: the directory is made sure of,
/// the entry is looked up, the URL is fetched once and the body is stored at
/// the entry's path, which is the result.
pub proof fn lemma_miss_fetches_once_and_stores(
    disk: Disk,
    remote: Remote,
    url: Seq<char>,
    body: Seq<u8>,
)
    requires
        disk.wf(),
        is_remote(url),
        !disk.has_file(path_of(disk, url)),
        downloaded(remote(url)) == served(body),
        body.len() <= u64::MAX,
    ensures
        resolve(disk, remote, url).result == ended_with(path_of(disk, url)),
        resolve(disk, remote, url).asked == seq![
            RequestModel::LocateCache,
        RequestModel::EnsureDir { dir: disk.dir() },
            RequestModel::Exists { path: path_of(disk, url) },
            RequestModel::Fetch { url },
            RequestModel::Write { path: path_of(disk, url), bytes: body },
        ],
        fetches(resolve(disk, remote, url).asked) == 1,
        resolve(disk, remote, url).disk == (Disk { present: true, ..disk }).with_file(
            path_of(disk, url),
            body,
        ),
        resolve(disk, remote, url).disk.wf(),
        resolve(disk, remote, url).disk.has_file(path_of(disk, url)),
{
    reveal_with_fuel(drive_resolve, 6);
    let path = path_of(disk, url);
    lemma_entry_is_not_the_directory(disk.dir(), url);
    let ready = Disk { present: true, ..disk };
    assert(ready.files == disk.files);
    assert(!ready.has_file(path));
    assert(!ready.exists_at(path));
    lemma_with_file(ready, path, body);
    let run = resolve(disk, remote, url);
    assert(run.asked =~= seq![
        RequestModel::LocateCache,
        RequestModel::EnsureDir { dir: disk.dir() },
        RequestModel::Exists { path },
        RequestModel::Fetch { url },
        RequestModel::Write { path, bytes: body },
    ]);
    lemma_fetches_of_short(run.asked);
}

/// A hit: the entry's path is the result, nothing is fetched whatever the
/// network would serve, and the files stay as they are.
pub proof fn lemma_hit_fetches_nothing(disk: Disk, remote: Remote, url: Seq<char>)
    requires
        is_remote(url),
        disk.has_file(path_of(disk, url)),
    ensures
        resolve(disk, remote, url).result == ended_with(path_of(disk, url)),
        resolve(disk, remote, url).asked == seq![
            RequestModel::LocateCache,
        RequestModel::EnsureDir { dir: disk.dir() },
            RequestModel::Exists { path: path_of(disk, url) },
        ],
        fetches(resolve(disk, remote, url).asked) == 0,
        resolve(disk, remote, url).disk == (Disk { present: true, ..disk }),
{
    reveal_with_fuel(drive_resolve, 6);
    let path = path_of(disk, url);
    let ready = Disk { present: true, ..disk };
    assert(ready.files == disk.files);
    let i = disk.index_of(path);
    assert(ready.files[i].path == path);
    assert(ready.has_file(path));
    let run = resolve(disk, remote, url);
    assert(run.asked =~= seq![
        RequestModel::LocateCache,
        RequestModel::EnsureDir { dir: disk.dir() },
        RequestModel::Exists { path },
    ]);
    lemma_fetches_of_short(run.asked);
}

/// The first resolution of a URL on a cache without its entry fetches once
/// and leaves the entry behind; the second fetches nothing and gives the
/// same path, even if the network has gone away meanwhile.
pub proof fn lemma_second_resolve_hits(
    disk: Disk,
    remote: Remote,
    later: Remote,
    url: Seq<char>,
    body: Seq<u8>,
)
    requires
        disk.wf(),
        is_remote(url),
        !disk.has_file(path_of(disk, url)),
        downloaded(remote(url)) == served(body),
        body.len() <= u64::MAX,
    ensures
        fetches(resolve(disk, remote, url).asked) == 1,
        fetches(resolve(resolve(disk, remote, url).disk, later, url).asked) == 0,
        resolve(resolve(disk, remote, url).disk, later, url).result == resolve(
            disk,
            remote,
            url,
        ).result,
        resolve(resolve(disk, remote, url).disk, later, url).result == ended_with(path_of(disk, url)),
        resolve(resolve(disk, remote, url).disk, later, url).disk == resolve(
            disk,
            remote,
            url,
        ).disk,
{
    lemma_miss_fetches_once_and_stores(disk, remote, url, body);
    let first = resolve(disk, remote, url);
    assert(first.disk.dir() == disk.dir());
    assert(path_of(first.disk, url) == path_of(disk, url));
    lemma_hit_fetches_nothing(first.disk, later, url);
    assert(first.disk.present);
    assert(first.disk == (Disk { present: true, ..first.disk }));
}

/// A miss followed by a failed download: the URL itself is the result, not
/// an error and not a path, and no file appears.
pub proof fn lemma_failed_fetch_returns_url(disk: Disk, remote: Remote, url: Seq<char>)
    requires
        is_remote(url),
        !disk.has_file(path_of(disk, url)),
        downloaded(remote(url)) is Err,
    ensures
        resolve(disk, remote, url).result == ended_with(url),
        fetches(resolve(disk, remote, url).asked) == 1,
        resolve(disk, remote, url).disk == (Disk { present: true, ..disk }),
{
    reveal_with_fuel(drive_resolve, 6);
    let path = path_of(disk, url);
    lemma_entry_is_not_the_directory(disk.dir(), url);
    let ready = Disk { present: true, ..disk };
    assert(ready.files == disk.files);
    assert(!ready.has_file(path));
    let run = resolve(disk, remote, url);
    assert(run.asked =~= seq![
        RequestModel::LocateCache,
        RequestModel::EnsureDir { dir: disk.dir() },
        RequestModel::Exists { path },
        RequestModel::Fetch { url },
    ]);
    lemma_fetches_of_short(run.asked);
}

/// Every resolution finishes, after one GET request at most, and on this
/// disk it ends with the entry's path or with the URL.
pub proof fn lemma_resolve_finishes(disk: Disk, remote: Remote, url: Seq<char>)
    ensures
        resolve(disk, remote, url).asked.len() <= 5,
        fetches(resolve(disk, remote, url).asked) <= 1,
        resolve(disk, remote, url).result == ended_with(url)
            || resolve(disk, remote, url).result == ended_with(path_of(disk, url)),
{
    reveal_with_fuel(drive_resolve, 6);
    let run = resolve(disk, remote, url);
    if is_remote(url) {
        let path = path_of(disk, url);
        let ready = Disk { present: true, ..disk };
        if ready.exists_at(path) {
            assert(run.asked =~= seq![
                RequestModel::LocateCache,
        RequestModel::EnsureDir { dir: disk.dir() },
                RequestModel::Exists { path },
            ]);
        } else {
            match downloaded(remote(url)) {
                Ok(body) => {
                    assert(run.asked =~= seq![
                        RequestModel::LocateCache,
        RequestModel::EnsureDir { dir: disk.dir() },
                        RequestModel::Exists { path },
                        RequestModel::Fetch { url },
                        RequestModel::Write { path, bytes: body },
                    ]);
                },
                Err(_) => {
                    assert(run.asked =~= seq![
                        RequestModel::LocateCache,
        RequestModel::EnsureDir { dir: disk.dir() },
                        RequestModel::Exists { path },
                        RequestModel::Fetch { url },
                    ]);
                },
            }
        }
        lemma_fetches_of_short(run.asked);
    } else {
        lemma_fetches_of_short(run.asked);
    }
}

/// A listing of the model disk counts exactly the bytes of its files.
pub proof fn lemma_listing_counts_files(disk: Disk)
    requires
        disk.wf(),
    ensures
        listed_bytes(disk.listing()) == disk.stored_bytes(),
    decreases disk.files.len(),
{
    let files = Seq::new(
        disk.files.len(),
        |i: int| EntryInfo::File { len: disk.files[i].bytes.len() as u64 },
    );
    let rest = Seq::new(disk.others, |i: int| EntryInfo::Other);
    lemma_listed_bytes_concat(files, rest);
    lemma_others_hold_nothing(disk.others);
    lemma_file_entries_count(disk.files);
}

/// Entries that are no regular files hold no bytes.
proof fn lemma_others_hold_nothing(n: nat)
    ensures
        listed_bytes(Seq::new(n, |i: int| EntryInfo::Other)) == 0,
    decreases n,
{
    if n > 0 {
        assert(Seq::new(n, |i: int| EntryInfo::Other).drop_last() =~= Seq::new(
            (n - 1) as nat,
            |i: int| EntryInfo::Other,
        ));
        lemma_others_hold_nothing((n - 1) as nat);
    }
}

/// The entries of files hold the bytes of the files.
proof fn lemma_file_entries_count(files: Seq<StoredFile>)
    requires
        forall|i: int| 0 <= i < files.len() ==> (#[trigger] files[i]).bytes.len() <= u64::MAX,
    ensures
        listed_bytes(
            Seq::new(files.len(), |i: int| EntryInfo::File { len: files[i].bytes.len() as u64 }),
        ) == stored_len(files),
    decreases files.len(),
{
    if files.len() > 0 {
        let entries = Seq::new(
            files.len(),
            |i: int| EntryInfo::File { len: files[i].bytes.len() as u64 },
        );
        let fewer = files.drop_last();
        assert(entries.drop_last() =~= Seq::new(
            fewer.len(),
            |i: int| EntryInfo::File { len: fewer[i].bytes.len() as u64 },
        ));
        assert(files.last().bytes.len() <= u64::MAX);
        lemma_file_entries_count(fewer);
    }
}

/// The size of the cache is the sum of the sizes of the regular files
/// directly in the cache directory; what else lies there counts for nothing,
/// and a directory that does not exist yet counts as empty. The directory
/// exists afterwards.
pub proof fn lemma_size_is_sum_of_files(disk: Disk, remote: Remote)
    requires
        disk.wf(),
    ensures
        cache_size(disk, remote).result == measured(capped(disk.stored_bytes())),
        !disk.present ==> cache_size(disk, remote).result == measured(0),
        cache_size(disk, remote).disk == (Disk { present: true, ..disk }),
{
    reveal_with_fuel(drive_measure, 6);
    let ready = Disk { present: true, ..disk };
    assert(ready.wf());
    lemma_listing_counts_files(ready);
    assert(ready.exists_at(disk.dir()));
}

/// Clearing leaves the cache directory in place and empty, so that the size
/// measured next is zero and a write into it succeeds.
pub proof fn lemma_clear_then_size_is_zero(
    disk: Disk,
    remote: Remote,
    path: Seq<char>,
    bytes: Seq<u8>,
)
    requires
        disk.wf(),
    ensures
        clear_cache(disk, remote).result == cleared(),
        clear_cache(disk, remote).disk == (Disk {
            present: true,
            files: Seq::<StoredFile>::empty(),
            others: 0,
            ..disk
        }),
        clear_cache(disk, remote).disk.wf(),
        cache_size(clear_cache(disk, remote).disk, remote).result == measured(0),
        clear_cache(disk, remote).disk.answer(remote, RequestModel::Write { path, bytes }).1
            == ReplyModel::Completed(Ok(())),
{
    reveal_with_fuel(drive_clear, 6);
    let ready = Disk { present: true, ..disk };
    assert(ready.exists_at(disk.dir()));
    let cleared = clear_cache(disk, remote).disk;
    assert(cleared.files =~= Seq::<StoredFile>::empty());
    lemma_size_is_sum_of_files(cleared, remote);
}

/// Resolving keeps the disk well formed: no two files ever share a path, so
/// a key never has more than one file.
pub proof fn lemma_resolve_keeps_disk_wf(disk: Disk, remote: Remote, url: Seq<char>)
    requires
        disk.wf(),
        downloaded(remote(url)) matches Ok(body) ==> body.len() <= u64::MAX,
    ensures
        resolve(disk, remote, url).disk.wf(),
{
    reveal_with_fuel(drive_resolve, 6);
    if is_remote(url) {
        let path = path_of(disk, url);
        let ready = Disk { present: true, ..disk };
        assert(ready.wf());
        lemma_entry_is_not_the_directory(disk.dir(), url);
        if !ready.exists_at(path) {
            match downloaded(remote(url)) {
                Ok(body) => {
                    lemma_with_file(ready, path, body);
                },
                Err(_) => {},
            }
        }
    }
}

} // verus!
