//! Resolving a URL to a local file.
//!
//! A local reference is handed back as it is. A remote URL is looked up in
//! the cache; on a miss it is fetched once and stored. When something fails
//! on the way (the cache directory cannot be found or made, the fetch or the
//! write fails), the URL itself is the answer, so that the caller can always
//! load something. One failure alone is named: a cache directory whose path
//! cannot be written as text, for then no path could be handed back at all.

use vstd::prelude::*;
use crate::error::CacheError;
use crate::error::ErrorModel;
use crate::fetch::download_result;
use crate::fetch::downloaded;
use crate::fetch::is_remote;
use crate::fetch::is_remote_url;
use crate::key::derived_key;
use crate::key::CacheKey;
use crate::protocol::text_step_view;
use crate::protocol::Reply;
use crate::protocol::ReplyModel;
use crate::protocol::Request;
use crate::protocol::RequestModel;
use crate::protocol::Step;
use crate::protocol::StepModel;
use crate::store::cache_dir;
use crate::store::entry_path;
use crate::store::CacheStore;

verus! {

/// How far a resolution has come.
#[derive(Clone, Copy, PartialEq, Eq, Debug, Structural)]
pub enum ResolvePhase {
    /// Waiting to learn where the application keeps its cache.
    Locate,
    /// Waiting for the cache directory to be there.
    Directory,
    /// Waiting to hear whether the entry exists.
    Lookup,
    /// Waiting for the download.
    Download,
    /// Waiting for the entry to be written.
    Save,
    /// Nothing more to do.
    Finished,
}

/// A resolution in progress.
pub struct Resolver {
    url: String,
    dir: String,
    path: String,
    phase: ResolvePhase,
}

/// What a `Resolver` holds.
pub ghost struct ResolverModel {
    pub url: Seq<char>,
    pub dir: Seq<char>,
    pub path: Seq<char>,
    pub phase: ResolvePhase,
}

impl View for Resolver {
    type V = ResolverModel;

    closed spec fn view(&self) -> ResolverModel {
        ResolverModel { url: self.url@, dir: self.dir@, path: self.path@, phase: self.phase }
    }
}

/// How a resolution ends: with a path or the URL, or with the one error that
/// a resolution names, `PathEncoding`.
pub type Resolved = Result<Seq<char>, ErrorModel>;

/// The first step of resolving `url`.
pub open spec fn resolve_start(url: Seq<char>) -> (ResolverModel, StepModel<Resolved>) {
    let state = ResolverModel {
        url,
        dir: Seq::empty(),
        path: Seq::empty(),
        phase: ResolvePhase::Finished,
    };
    if is_remote(url) {
        (
            ResolverModel { phase: ResolvePhase::Locate, ..state },
            StepModel::Ask(RequestModel::LocateCache),
        )
    } else {
        (state, StepModel::Finish(Ok(url)))
    }
}

/// How a resolution of `url` ends when the cache directory cannot be located:
/// with the error if the path of the directory cannot be written as text,
/// with the URL for any other reason.
pub open spec fn unlocated(url: Seq<char>, error: ErrorModel) -> Resolved {
    if error is PathEncoding {
        Err(error)
    } else {
        Ok(url)
    }
}

/// The step that follows `reply`; `None` when `reply` does not answer what
/// the resolution is waiting for.
pub open spec fn resolve_step(state: ResolverModel, reply: ReplyModel) -> Option<
    (ResolverModel, StepModel<Resolved>),
> {
    let finished = ResolverModel { phase: ResolvePhase::Finished, ..state };
    match (state.phase, reply) {
        (ResolvePhase::Locate, ReplyModel::Located(Ok(root))) => Some(
            (
                ResolverModel {
                    dir: cache_dir(root),
                    path: entry_path(cache_dir(root), derived_key(state.url)),
                    phase: ResolvePhase::Directory,
                    ..state
                },
                StepModel::Ask(RequestModel::EnsureDir { dir: cache_dir(root) }),
            ),
        ),
        (ResolvePhase::Locate, ReplyModel::Located(Err(error))) => Some(
            (finished, StepModel::Finish(unlocated(state.url, error))),
        ),
        (ResolvePhase::Directory, ReplyModel::Completed(Ok(()))) => Some(
            (
                ResolverModel { phase: ResolvePhase::Lookup, ..state },
                StepModel::Ask(RequestModel::Exists { path: state.path }),
            ),
        ),
        (ResolvePhase::Directory, ReplyModel::Completed(Err(_))) => Some(
            (finished, StepModel::Finish(Ok(state.url))),
        ),
        (ResolvePhase::Lookup, ReplyModel::Exists(true)) => Some(
            (finished, StepModel::Finish(Ok(state.path))),
        ),
        (ResolvePhase::Lookup, ReplyModel::Exists(false)) => Some(
            (
                ResolverModel { phase: ResolvePhase::Download, ..state },
                StepModel::Ask(RequestModel::Fetch { url: state.url }),
            ),
        ),
        (ResolvePhase::Download, ReplyModel::Fetched(outcome)) => match downloaded(outcome) {
            Ok(bytes) => Some(
                (
                    ResolverModel { phase: ResolvePhase::Save, ..state },
                    StepModel::Ask(RequestModel::Write { path: state.path, bytes }),
                ),
            ),
            Err(_) => Some((finished, StepModel::Finish(Ok(state.url)))),
        },
        (ResolvePhase::Save, ReplyModel::Completed(Ok(()))) => Some(
            (finished, StepModel::Finish(Ok(state.path))),
        ),
        (ResolvePhase::Save, ReplyModel::Completed(Err(_))) => Some(
            (finished, StepModel::Finish(Ok(state.url))),
        ),
        _ => None,
    }
}

impl Resolver {
    /// Begins to resolve `url`. A URL that is not remote is finished at once,
    /// with itself as the result and nothing asked.
    pub fn start(url: String) -> (started: (Resolver, Step<Result<String, CacheError>>))
        ensures
            (started.0@, text_step_view(started.1)) == resolve_start(url@),
    {
        if is_remote_url(url.as_str()) {
            let resolver = Resolver {
                url,
                dir: String::new(),
                path: String::new(),
                phase: ResolvePhase::Locate,
            };
            (resolver, Step::Ask(Request::LocateCache))
        } else {
            let resolver = Resolver {
                url: url.clone(),
                dir: String::new(),
                path: String::new(),
                phase: ResolvePhase::Finished,
            };
            (resolver, Step::Finish(Ok(url)))
        }
    }

    /// Whether the resolution has ended.
    pub fn is_finished(&self) -> (finished: bool)
        ensures
            finished == (self@.phase == ResolvePhase::Finished),
    {
        self.phase == ResolvePhase::Finished
    }

    /// Takes the answer to the pending request and says what comes next.
    /// An answer of the wrong kind, or any answer once the resolution has
    /// finished, is ignored: the result is `None` and nothing changes.
    pub fn step(&mut self, reply: Reply) -> (next: Option<Step<Result<String, CacheError>>>)
        ensures
            match resolve_step(old(self)@, reply@) {
                Some((state, step)) => final(self)@ == state && next is Some && text_step_view(
                    next.unwrap(),
                ) == step,
                None => final(self)@ == old(self)@ && next is None,
            },
    {
        match (self.phase, reply) {
            (ResolvePhase::Locate, Reply::Located(Ok(root))) => {
                let store = CacheStore::new(root.as_str());
                let key = CacheKey::derive(self.url.as_str());
                self.path = store.path_for(&key);
                self.dir = String::from_str(store.dir());
                self.phase = ResolvePhase::Directory;
                Some(Step::Ask(Request::EnsureDir { dir: self.dir.clone() }))
            },
            (ResolvePhase::Locate, Reply::Located(Err(error))) => {
                self.phase = ResolvePhase::Finished;
                match error {
                    CacheError::PathEncoding => Some(Step::Finish(Err(CacheError::PathEncoding))),
                    _ => Some(Step::Finish(Ok(self.url.clone()))),
                }
            },
            (ResolvePhase::Directory, Reply::Completed(Ok(()))) => {
                self.phase = ResolvePhase::Lookup;
                Some(Step::Ask(Request::Exists { path: self.path.clone() }))
            },
            (ResolvePhase::Directory, Reply::Completed(Err(_))) => {
                self.phase = ResolvePhase::Finished;
                Some(Step::Finish(Ok(self.url.clone())))
            },
            (ResolvePhase::Lookup, Reply::Exists(true)) => {
                self.phase = ResolvePhase::Finished;
                Some(Step::Finish(Ok(self.path.clone())))
            },
            (ResolvePhase::Lookup, Reply::Exists(false)) => {
                self.phase = ResolvePhase::Download;
                Some(Step::Ask(Request::Fetch { url: self.url.clone() }))
            },
            (ResolvePhase::Download, Reply::Fetched(outcome)) => {
                match download_result(outcome) {
                    Ok(bytes) => {
                        self.phase = ResolvePhase::Save;
                        Some(Step::Ask(Request::Write { path: self.path.clone(), bytes }))
                    },
                    Err(_) => {
                        self.phase = ResolvePhase::Finished;
                        Some(Step::Finish(Ok(self.url.clone())))
                    },
                }
            },
            (ResolvePhase::Save, Reply::Completed(Ok(()))) => {
                self.phase = ResolvePhase::Finished;
                Some(Step::Finish(Ok(self.path.clone())))
            },
            (ResolvePhase::Save, Reply::Completed(Err(_))) => {
                self.phase = ResolvePhase::Finished;
                Some(Step::Finish(Ok(self.url.clone())))
            },
            _ => None,
        }
    }
}

/// How many answers a resolution in this phase may still take.
pub open spec fn answers_left(phase: ResolvePhase) -> nat {
    match phase {
        ResolvePhase::Locate => 5,
        ResolvePhase::Directory => 4,
        ResolvePhase::Lookup => 3,
        ResolvePhase::Download => 2,
        ResolvePhase::Save => 1,
        ResolvePhase::Finished => 0,
    }
}

/// Every answer that is taken brings the resolution nearer to its end, and
/// it ends exactly when it names its result: nothing is asked twice.
pub proof fn lemma_resolution_advances(state: ResolverModel, reply: ReplyModel)
    ensures
        match resolve_step(state, reply) {
            Some((next, step)) => answers_left(next.phase) < answers_left(state.phase) && (
            step is Finish <==> next.phase == ResolvePhase::Finished) && next.url == state.url,
            None => true,
        },
        state.phase == ResolvePhase::Finished ==> resolve_step(state, reply) is None,
{
}

/// A resolution always ends with the entry's path or with the URL, with one
/// exception: it ends with `PathEncoding` when that is what locating the
/// cache directory came to.
pub proof fn lemma_resolution_ends_in_a_reference(state: ResolverModel, reply: ReplyModel)
    ensures
        match resolve_step(state, reply) {
            Some((_, StepModel::Finish(result))) => result == Ok::<Seq<char>, ErrorModel>(
                state.url,
            ) || (result == Ok::<Seq<char>, ErrorModel>(state.path) && (state.phase
                == ResolvePhase::Lookup || state.phase == ResolvePhase::Save)) || (result
                == Err::<Seq<char>, ErrorModel>(ErrorModel::PathEncoding) && state.phase
                == ResolvePhase::Locate && reply == ReplyModel::Located(
                Err(ErrorModel::PathEncoding),
            )),
            _ => true,
        },
{
}

/// Whatever fails on the way falls back to the URL: a cache directory that
/// cannot be located (unless its path is not text) or made, a download that
/// fails, a write that fails.
pub proof fn lemma_failures_fall_back_to_url(state: ResolverModel, reply: ReplyModel)
    requires
        state.phase != ResolvePhase::Finished,
        match reply {
            ReplyModel::Located(Err(error)) => state.phase == ResolvePhase::Locate && !(
            error is PathEncoding),
            ReplyModel::Completed(Err(_)) => state.phase == ResolvePhase::Directory || state.phase
                == ResolvePhase::Save,
            ReplyModel::Fetched(outcome) => state.phase == ResolvePhase::Download && downloaded(
                outcome,
            ) is Err,
            _ => false,
        },
    ensures
        resolve_step(state, reply) == Some(
            (
                ResolverModel { phase: ResolvePhase::Finished, ..state },
                StepModel::Finish(Ok::<Seq<char>, ErrorModel>(state.url)),
            ),
        ),
{
}

/// A remote URL whose cache directory cannot be made resolves to itself.
pub proof fn lemma_unmade_directory_returns_url(
    url: Seq<char>,
    root: Seq<char>,
    error: ErrorModel,
)
    requires
        is_remote(url),
    ensures
        ({
            let (started, first) = resolve_start(url);
            let located = ResolverModel {
                dir: cache_dir(root),
                path: entry_path(cache_dir(root), derived_key(url)),
                phase: ResolvePhase::Directory,
                ..started
            };
            &&& first == StepModel::<Resolved>::Ask(RequestModel::LocateCache)
            &&& resolve_step(started, ReplyModel::Located(Ok(root))) == Some(
                (
                    located,
                    StepModel::<Resolved>::Ask(RequestModel::EnsureDir { dir: cache_dir(root) }),
                ),
            )
            &&& resolve_step(located, ReplyModel::Completed(Err(error))) == Some(
                (
                    ResolverModel { phase: ResolvePhase::Finished, ..located },
                    StepModel::<Resolved>::Finish(Ok(url)),
                ),
            )
        }),
{
}

} // verus!
