//! A model of the cache directory and of the network, and what the cache
//! operations come to when they run against it.
//!
//! Nothing here is executable. The model answers each request the way a disk
//! without faults would, and a fixed table stands for what each URL serves.
//! Running an operation means feeding it those answers until it finishes.

use vstd::prelude::*;
use crate::error::ErrorModel;
use crate::fetch::OutcomeModel;
use crate::key::derived_key;
use crate::maintain::clear_start;
use crate::maintain::clear_step;
use crate::maintain::measure_start;
use crate::maintain::measure_step;
use crate::maintain::Cleared;
use crate::maintain::ClearerModel;
use crate::maintain::Measured;
use crate::maintain::MeasurerModel;
use crate::protocol::ReplyModel;
use crate::protocol::RequestModel;
use crate::protocol::StepModel;
use crate::resolve::resolve_start;
use crate::resolve::resolve_step;
use crate::resolve::Resolved;
use crate::resolve::ResolverModel;
use crate::store::cache_dir;
use crate::store::entry_path;
use crate::store::EntryInfo;

verus! {

/// A regular file in the cache directory.
pub ghost struct StoredFile {
    pub path: Seq<char>,
    pub bytes: Seq<u8>,
}

/// The cache directory as the operations see it.
pub ghost struct Disk {
    /// Where the application keeps its cache; the directory lies in it.
    pub root: Seq<char>,
    /// Whether the directory exists.
    pub present: bool,
    /// The regular files directly in it.
    pub files: Seq<StoredFile>,
    /// How many subdirectories and other entries lie beside them.
    pub others: nat,
}

/// What each URL serves.
pub type Remote = spec_fn(Seq<char>) -> OutcomeModel;

impl Disk {
    /// The path of the cache directory.
    pub open spec fn dir(self) -> Seq<char> {
        cache_dir(self.root)
    }

    /// Whether a regular file lies at `path`.
    pub open spec fn has_file(self, path: Seq<char>) -> bool {
        exists|i: int| 0 <= i < self.files.len() && self.files[i].path == path
    }

    /// The place of the file at `path` among the files.
    pub open spec fn index_of(self, path: Seq<char>) -> int {
        choose|i: int| 0 <= i < self.files.len() && self.files[i].path == path
    }

    /// Whether anything exists at `path`.
    pub open spec fn exists_at(self, path: Seq<char>) -> bool {
        self.present && (path == self.dir() || self.has_file(path))
    }

    /// A missing directory holds nothing, no two files share a path, none
    /// sits at the path of the directory itself, and every length fits.
    pub open spec fn wf(self) -> bool {
        &&& !self.present ==> self.files.len() == 0 && self.others == 0
        &&& forall|i: int, j: int|
            0 <= i < j < self.files.len() ==> self.files[i].path != self.files[j].path
        &&& forall|i: int| 0 <= i < self.files.len() ==> #[trigger] self.files[i].path != self.dir()
        &&& forall|i: int|
            0 <= i < self.files.len() ==> (#[trigger] self.files[i]).bytes.len() <= u64::MAX
    }

    /// The disk once `bytes` are the whole content of the file at `path`.
    pub open spec fn with_file(self, path: Seq<char>, bytes: Seq<u8>) -> Disk {
        let file = StoredFile { path, bytes };
        if self.has_file(path) {
            Disk { files: self.files.update(self.index_of(path), file), ..self }
        } else {
            Disk { files: self.files.push(file), ..self }
        }
    }

    /// What a listing of the directory shows.
    pub open spec fn listing(self) -> Seq<EntryInfo> {
        Seq::new(self.files.len(), |i: int| EntryInfo::File { len: self.files[i].bytes.len() as u64 })
            + Seq::new(self.others, |i: int| EntryInfo::Other)
    }

    /// The bytes held by the regular files.
    pub open spec fn stored_bytes(self) -> nat {
        stored_len(self.files)
    }

    /// How the disk answers `request`, and what it is afterwards. The disk
    /// holds the cache directory and nothing else: another directory cannot
    /// be made, listed or removed on it.
    pub open spec fn answer(self, remote: Remote, request: RequestModel) -> (Disk, ReplyModel) {
        match request {
            RequestModel::LocateCache => (self, ReplyModel::Located(Ok(self.root))),
            RequestModel::EnsureDir { dir } => if dir == self.dir() {
                (Disk { present: true, ..self }, ReplyModel::Completed(Ok(())))
            } else {
                (self, ReplyModel::Completed(Err(ErrorModel::Io(Seq::empty()))))
            },
            RequestModel::Exists { path } => (self, ReplyModel::Exists(self.exists_at(path))),
            RequestModel::Fetch { url } => (self, ReplyModel::Fetched(remote(url))),
            RequestModel::Write { path, bytes } => if self.present {
                (self.with_file(path, bytes), ReplyModel::Completed(Ok(())))
            } else {
                (self, ReplyModel::Completed(Err(ErrorModel::Io(Seq::empty()))))
            },
            RequestModel::RemoveDir { dir } => if dir == self.dir() {
                (
                    Disk { present: false, files: Seq::empty(), others: 0, ..self },
                    ReplyModel::Completed(Ok(())),
                )
            } else {
                (self, ReplyModel::Completed(Err(ErrorModel::Io(Seq::empty()))))
            },
            RequestModel::ListDir { dir } => (
                self,
                ReplyModel::Listed(
                    if self.present && dir == self.dir() {
                        Some(self.listing())
                    } else {
                        None
                    },
                ),
            ),
        }
    }
}

/// The bytes held by a sequence of files.
pub open spec fn stored_len(files: Seq<StoredFile>) -> nat
    decreases files.len(),
{
    if files.len() == 0 {
        0
    } else {
        stored_len(files.drop_last()) + files.last().bytes.len()
    }
}

/// An operation that has run: its result, if it finished, the disk it left,
/// and the requests it made, in order.
pub ghost struct Run<T> {
    pub result: Option<T>,
    pub disk: Disk,
    pub asked: Seq<RequestModel>,
}

/// The number of GET requests among `asked`.
pub open spec fn fetches(asked: Seq<RequestModel>) -> nat
    decreases asked.len(),
{
    if asked.len() == 0 {
        0
    } else {
        fetches(asked.drop_last()) + if asked.last() is Fetch {
            1nat
        } else {
            0nat
        }
    }
}

/// Feeds a resolution the disk's answers, for at most `fuel` requests.
pub open spec fn drive_resolve(
    state: ResolverModel,
    step: StepModel<Resolved>,
    disk: Disk,
    remote: Remote,
    asked: Seq<RequestModel>,
    fuel: nat,
) -> Run<Resolved>
    decreases fuel,
{
    match step {
        StepModel::Finish(result) => Run { result: Some(result), disk, asked },
        StepModel::Ask(request) => {
            let (after, reply) = disk.answer(remote, request);
            match resolve_step(state, reply) {
                Some((next, then)) if fuel > 0 => drive_resolve(
                    next,
                    then,
                    after,
                    remote,
                    asked.push(request),
                    (fuel - 1) as nat,
                ),
                _ => Run { result: None, disk: after, asked: asked.push(request) },
            }
        },
    }
}

/// Feeds a measurement the disk's answers, for at most `fuel` requests.
pub open spec fn drive_measure(
    state: MeasurerModel,
    step: StepModel<Measured>,
    disk: Disk,
    remote: Remote,
    asked: Seq<RequestModel>,
    fuel: nat,
) -> Run<Measured>
    decreases fuel,
{
    match step {
        StepModel::Finish(result) => Run { result: Some(result), disk, asked },
        StepModel::Ask(request) => {
            let (after, reply) = disk.answer(remote, request);
            match measure_step(state, reply) {
                Some((next, then)) if fuel > 0 => drive_measure(
                    next,
                    then,
                    after,
                    remote,
                    asked.push(request),
                    (fuel - 1) as nat,
                ),
                _ => Run { result: None, disk: after, asked: asked.push(request) },
            }
        },
    }
}

/// Feeds a clearing the disk's answers, for at most `fuel` requests.
pub open spec fn drive_clear(
    state: ClearerModel,
    step: StepModel<Cleared>,
    disk: Disk,
    remote: Remote,
    asked: Seq<RequestModel>,
    fuel: nat,
) -> Run<Cleared>
    decreases fuel,
{
    match step {
        StepModel::Finish(result) => Run { result: Some(result), disk, asked },
        StepModel::Ask(request) => {
            let (after, reply) = disk.answer(remote, request);
            match clear_step(state, reply) {
                Some((next, then)) if fuel > 0 => drive_clear(
                    next,
                    then,
                    after,
                    remote,
                    asked.push(request),
                    (fuel - 1) as nat,
                ),
                _ => Run { result: None, disk: after, asked: asked.push(request) },
            }
        },
    }
}

/// A resolution that finished with `text`, a path or a URL.
pub open spec fn ended_with(text: Seq<char>) -> Option<Resolved> {
    Some(Ok(text))
}

/// A measurement that finished with `bytes`.
pub open spec fn measured(bytes: u64) -> Option<Measured> {
    Some(Ok(bytes))
}

/// A clearing that finished without error.
pub open spec fn cleared() -> Option<Cleared> {
    Some(Ok(()))
}

/// The most requests that any operation makes.
pub open spec fn enough() -> nat {
    5
}

/// Resolving `url` on `disk`.
pub open spec fn resolve(disk: Disk, remote: Remote, url: Seq<char>) -> Run<Resolved> {
    let (state, step) = resolve_start(url);
    drive_resolve(state, step, disk, remote, Seq::empty(), enough())
}

/// Measuring the cache on `disk`.
pub open spec fn cache_size(disk: Disk, remote: Remote) -> Run<Measured> {
    let (state, step) = measure_start();
    drive_measure(state, step, disk, remote, Seq::empty(), enough())
}

/// Clearing the cache on `disk`.
pub open spec fn clear_cache(disk: Disk, remote: Remote) -> Run<Cleared> {
    let (state, step) = clear_start();
    drive_clear(state, step, disk, remote, Seq::empty(), enough())
}

/// The path of the entry for `url` on `disk`.
pub open spec fn path_of(disk: Disk, url: Seq<char>) -> Seq<char> {
    entry_path(disk.dir(), derived_key(url))
}

} // verus!
