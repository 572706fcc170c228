//! Measuring the cache and emptying it.
//!
//! Both begin by finding the cache directory and making sure it is there.
//! Neither can do anything without knowing where the cache is: a failure to
//! locate it ends either with that error.
//!
//! Measuring is best effort beyond that point. A directory that is not there
//! and cannot be made holds nothing, and one that cannot be listed counts as
//! empty: the size is 0, never an error.
//!
//! Clearing hides nothing: a failure to create or remove the directory ends
//! it with that error.

use vstd::prelude::*;
use crate::error::CacheError;
use crate::error::ErrorModel;
use crate::protocol::size_step_view;
use crate::protocol::unit_step_view;
use crate::protocol::Reply;
use crate::protocol::ReplyModel;
use crate::protocol::Request;
use crate::protocol::RequestModel;
use crate::protocol::Step;
use crate::protocol::StepModel;
use crate::store::cache_dir;
use crate::store::capped;
use crate::store::listed_bytes;
use crate::store::total_size;
use crate::store::CacheStore;

verus! {

/// How far a measurement has come.
#[derive(Clone, Copy, PartialEq, Eq, Debug, Structural)]
pub enum MeasurePhase {
    /// Waiting to learn where the application keeps its cache.
    Locate,
    /// Waiting for the cache directory to be there.
    Directory,
    /// Waiting to hear whether the directory exists.
    Check,
    /// Waiting for the listing.
    Listing,
    /// Nothing more to do.
    Finished,
}

/// A measurement of the cache in progress.
pub struct Measurer {
    dir: String,
    phase: MeasurePhase,
}

/// What a `Measurer` holds.
pub ghost struct MeasurerModel {
    pub dir: Seq<char>,
    pub phase: MeasurePhase,
}

impl View for Measurer {
    type V = MeasurerModel;

    closed spec fn view(&self) -> MeasurerModel {
        MeasurerModel { dir: self.dir@, phase: self.phase }
    }
}

/// How a measurement ends: with the bytes in the cache, or with the error
/// that kept the cache from being located.
pub type Measured = Result<u64, ErrorModel>;

/// The first step of measuring the cache.
pub open spec fn measure_start() -> (MeasurerModel, StepModel<Measured>) {
    (
        MeasurerModel { dir: Seq::empty(), phase: MeasurePhase::Locate },
        StepModel::Ask(RequestModel::LocateCache),
    )
}

/// The step that follows `reply`; `None` when `reply` does not answer what
/// the measurement is waiting for.
pub open spec fn measure_step(state: MeasurerModel, reply: ReplyModel) -> Option<
    (MeasurerModel, StepModel<Measured>),
> {
    let finished = MeasurerModel { phase: MeasurePhase::Finished, ..state };
    match (state.phase, reply) {
        (MeasurePhase::Locate, ReplyModel::Located(Ok(root))) => Some(
            (
                MeasurerModel { dir: cache_dir(root), phase: MeasurePhase::Directory },
                StepModel::Ask(RequestModel::EnsureDir { dir: cache_dir(root) }),
            ),
        ),
        (MeasurePhase::Locate, ReplyModel::Located(Err(error))) => Some(
            (finished, StepModel::Finish(Err(error))),
        ),
        (MeasurePhase::Directory, ReplyModel::Completed(Ok(()))) => Some(
            (
                MeasurerModel { phase: MeasurePhase::Check, ..state },
                StepModel::Ask(RequestModel::Exists { path: state.dir }),
            ),
        ),
        (MeasurePhase::Directory, ReplyModel::Completed(Err(_))) => Some(
            (finished, StepModel::Finish(Ok(0))),
        ),
        (MeasurePhase::Check, ReplyModel::Exists(true)) => Some(
            (
                MeasurerModel { phase: MeasurePhase::Listing, ..state },
                StepModel::Ask(RequestModel::ListDir { dir: state.dir }),
            ),
        ),
        (MeasurePhase::Check, ReplyModel::Exists(false)) => Some(
            (finished, StepModel::Finish(Ok(0))),
        ),
        (MeasurePhase::Listing, ReplyModel::Listed(Some(entries))) => Some(
            (finished, StepModel::Finish(Ok(capped(listed_bytes(entries))))),
        ),
        (MeasurePhase::Listing, ReplyModel::Listed(None)) => Some(
            (finished, StepModel::Finish(Ok(0))),
        ),
        _ => None,
    }
}

impl Measurer {
    /// Begins to measure the cache.
    pub fn start() -> (started: (Measurer, Step<Result<u64, CacheError>>))
        ensures
            (started.0@, size_step_view(started.1)) == measure_start(),
    {
        (
            Measurer { dir: String::new(), phase: MeasurePhase::Locate },
            Step::Ask(Request::LocateCache),
        )
    }

    /// Whether the measurement has ended.
    pub fn is_finished(&self) -> (finished: bool)
        ensures
            finished == (self@.phase == MeasurePhase::Finished),
    {
        self.phase == MeasurePhase::Finished
    }

    /// Takes the answer to the pending request and says what comes next.
    /// An answer of the wrong kind, or any answer once the measurement has
    /// finished, is ignored: the result is `None` and nothing changes.
    pub fn step(&mut self, reply: Reply) -> (next: Option<Step<Result<u64, CacheError>>>)
        ensures
            match measure_step(old(self)@, reply@) {
                Some((state, step)) => final(self)@ == state && next is Some && size_step_view(
                    next.unwrap(),
                ) == step,
                None => final(self)@ == old(self)@ && next is None,
            },
    {
        match (self.phase, reply) {
            (MeasurePhase::Locate, Reply::Located(Ok(root))) => {
                let store = CacheStore::new(root.as_str());
                self.dir = String::from_str(store.dir());
                self.phase = MeasurePhase::Directory;
                Some(Step::Ask(Request::EnsureDir { dir: self.dir.clone() }))
            },
            (MeasurePhase::Locate, Reply::Located(Err(error))) => {
                self.phase = MeasurePhase::Finished;
                Some(Step::Finish(Err(error)))
            },
            (MeasurePhase::Directory, Reply::Completed(Ok(()))) => {
                self.phase = MeasurePhase::Check;
                Some(Step::Ask(Request::Exists { path: self.dir.clone() }))
            },
            (MeasurePhase::Directory, Reply::Completed(Err(_))) => {
                self.phase = MeasurePhase::Finished;
                Some(Step::Finish(Ok(0)))
            },
            (MeasurePhase::Check, Reply::Exists(true)) => {
                self.phase = MeasurePhase::Listing;
                Some(Step::Ask(Request::ListDir { dir: self.dir.clone() }))
            },
            (MeasurePhase::Check, Reply::Exists(false)) => {
                self.phase = MeasurePhase::Finished;
                Some(Step::Finish(Ok(0)))
            },
            (MeasurePhase::Listing, Reply::Listed(Some(entries))) => {
                self.phase = MeasurePhase::Finished;
                Some(Step::Finish(Ok(total_size(entries.as_slice()))))
            },
            (MeasurePhase::Listing, Reply::Listed(None)) => {
                self.phase = MeasurePhase::Finished;
                Some(Step::Finish(Ok(0)))
            },
            _ => None,
        }
    }
}

/// How far a clearing has come.
#[derive(Clone, Copy, PartialEq, Eq, Debug, Structural)]
pub enum ClearPhase {
    /// Waiting to learn where the application keeps its cache.
    Locate,
    /// Waiting for the cache directory to be there.
    Directory,
    /// Waiting to hear whether the directory exists.
    Check,
    /// Waiting for the directory to be removed.
    Removal,
    /// Waiting for the directory to be created anew.
    Renewal,
    /// Nothing more to do.
    Finished,
}

/// A clearing of the cache in progress.
pub struct Clearer {
    dir: String,
    phase: ClearPhase,
}

/// What a `Clearer` holds.
pub ghost struct ClearerModel {
    pub dir: Seq<char>,
    pub phase: ClearPhase,
}

impl View for Clearer {
    type V = ClearerModel;

    closed spec fn view(&self) -> ClearerModel {
        ClearerModel { dir: self.dir@, phase: self.phase }
    }
}

/// How a clearing ends: done, or the error that stopped it.
pub type Cleared = Result<(), ErrorModel>;

/// The first step of clearing the cache.
pub open spec fn clear_start() -> (ClearerModel, StepModel<Cleared>) {
    (
        ClearerModel { dir: Seq::empty(), phase: ClearPhase::Locate },
        StepModel::Ask(RequestModel::LocateCache),
    )
}

/// The step that follows `reply`; `None` when `reply` does not answer what
/// the clearing is waiting for.
pub open spec fn clear_step(state: ClearerModel, reply: ReplyModel) -> Option<
    (ClearerModel, StepModel<Cleared>),
> {
    let finished = ClearerModel { phase: ClearPhase::Finished, ..state };
    match (state.phase, reply) {
        (ClearPhase::Locate, ReplyModel::Located(Ok(root))) => Some(
            (
                ClearerModel { dir: cache_dir(root), phase: ClearPhase::Directory },
                StepModel::Ask(RequestModel::EnsureDir { dir: cache_dir(root) }),
            ),
        ),
        (ClearPhase::Locate, ReplyModel::Located(Err(error))) => Some(
            (finished, StepModel::Finish(Err(error))),
        ),
        (ClearPhase::Directory, ReplyModel::Completed(Ok(()))) => Some(
            (
                ClearerModel { phase: ClearPhase::Check, ..state },
                StepModel::Ask(RequestModel::Exists { path: state.dir }),
            ),
        ),
        (ClearPhase::Check, ReplyModel::Exists(true)) => Some(
            (
                ClearerModel { phase: ClearPhase::Removal, ..state },
                StepModel::Ask(RequestModel::RemoveDir { dir: state.dir }),
            ),
        ),
        (ClearPhase::Check, ReplyModel::Exists(false)) => Some(
            (finished, StepModel::Finish(Ok(()))),
        ),
        (ClearPhase::Removal, ReplyModel::Completed(Ok(()))) => Some(
            (
                ClearerModel { phase: ClearPhase::Renewal, ..state },
                StepModel::Ask(RequestModel::EnsureDir { dir: state.dir }),
            ),
        ),
        (ClearPhase::Renewal, ReplyModel::Completed(Ok(()))) => Some(
            (finished, StepModel::Finish(Ok(()))),
        ),
        (ClearPhase::Directory, ReplyModel::Completed(Err(error))) => Some(
            (finished, StepModel::Finish(Err(error))),
        ),
        (ClearPhase::Removal, ReplyModel::Completed(Err(error))) => Some(
            (finished, StepModel::Finish(Err(error))),
        ),
        (ClearPhase::Renewal, ReplyModel::Completed(Err(error))) => Some(
            (finished, StepModel::Finish(Err(error))),
        ),
        _ => None,
    }
}

impl Clearer {
    /// Begins to clear the cache.
    pub fn start() -> (started: (Clearer, Step<Result<(), CacheError>>))
        ensures
            (started.0@, unit_step_view(started.1)) == clear_start(),
    {
        (Clearer { dir: String::new(), phase: ClearPhase::Locate }, Step::Ask(Request::LocateCache))
    }

    /// Whether the clearing has ended.
    pub fn is_finished(&self) -> (finished: bool)
        ensures
            finished == (self@.phase == ClearPhase::Finished),
    {
        self.phase == ClearPhase::Finished
    }

    /// Takes the answer to the pending request and says what comes next.
    /// An answer of the wrong kind, or any answer once the clearing has
    /// finished, is ignored: the result is `None` and nothing changes.
    pub fn step(&mut self, reply: Reply) -> (next: Option<Step<Result<(), CacheError>>>)
        ensures
            match clear_step(old(self)@, reply@) {
                Some((state, step)) => final(self)@ == state && next is Some && unit_step_view(
                    next.unwrap(),
                ) == step,
                None => final(self)@ == old(self)@ && next is None,
            },
    {
        match (self.phase, reply) {
            (ClearPhase::Locate, Reply::Located(Ok(root))) => {
                let store = CacheStore::new(root.as_str());
                self.dir = String::from_str(store.dir());
                self.phase = ClearPhase::Directory;
                Some(Step::Ask(Request::EnsureDir { dir: self.dir.clone() }))
            },
            (ClearPhase::Locate, Reply::Located(Err(error))) => {
                self.phase = ClearPhase::Finished;
                Some(Step::Finish(Err(error)))
            },
            (ClearPhase::Directory, Reply::Completed(Ok(()))) => {
                self.phase = ClearPhase::Check;
                Some(Step::Ask(Request::Exists { path: self.dir.clone() }))
            },
            (ClearPhase::Check, Reply::Exists(true)) => {
                self.phase = ClearPhase::Removal;
                Some(Step::Ask(Request::RemoveDir { dir: self.dir.clone() }))
            },
            (ClearPhase::Check, Reply::Exists(false)) => {
                self.phase = ClearPhase::Finished;
                Some(Step::Finish(Ok(())))
            },
            (ClearPhase::Removal, Reply::Completed(Ok(()))) => {
                self.phase = ClearPhase::Renewal;
                Some(Step::Ask(Request::EnsureDir { dir: self.dir.clone() }))
            },
            (ClearPhase::Renewal, Reply::Completed(Ok(()))) => {
                self.phase = ClearPhase::Finished;
                Some(Step::Finish(Ok(())))
            },
            (ClearPhase::Directory, Reply::Completed(Err(error))) => {
                self.phase = ClearPhase::Finished;
                Some(Step::Finish(Err(error)))
            },
            (ClearPhase::Removal, Reply::Completed(Err(error))) => {
                self.phase = ClearPhase::Finished;
                Some(Step::Finish(Err(error)))
            },
            (ClearPhase::Renewal, Reply::Completed(Err(error))) => {
                self.phase = ClearPhase::Finished;
                Some(Step::Finish(Err(error)))
            },
            _ => None,
        }
    }
}

/// Clearing hides no failure: an error in locating, creating or removing the
/// directory ends the clearing with that error.
pub proof fn lemma_clearing_reports_failures(state: ClearerModel, error: ErrorModel)
    ensures
        state.phase == ClearPhase::Locate ==> clear_step(state, ReplyModel::Located(Err(error)))
            == Some(
            (
                ClearerModel { phase: ClearPhase::Finished, ..state },
                StepModel::Finish(Err::<(), ErrorModel>(error)),
            ),
        ),
        state.phase == ClearPhase::Directory || state.phase == ClearPhase::Removal || state.phase
            == ClearPhase::Renewal ==> clear_step(state, ReplyModel::Completed(Err(error)))
            == Some(
            (
                ClearerModel { phase: ClearPhase::Finished, ..state },
                StepModel::Finish(Err::<(), ErrorModel>(error)),
            ),
        ),
{
}

/// A measurement never fails once the cache has been located: a directory
/// that cannot be made, that is not there, or that cannot be listed counts
/// as empty.
pub proof fn lemma_measuring_is_best_effort(
    state: MeasurerModel,
    reply: ReplyModel,
    error: ErrorModel,
)
    requires
        state.phase == MeasurePhase::Directory || state.phase == MeasurePhase::Check
            || state.phase == MeasurePhase::Listing,
    ensures
        match measure_step(state, reply) {
            Some((_, StepModel::Finish(result))) => result is Ok,
            _ => true,
        },
        state.phase == MeasurePhase::Directory ==> measure_step(
            state,
            ReplyModel::Completed(Err(error)),
        ) == Some(
            (
                MeasurerModel { phase: MeasurePhase::Finished, ..state },
                StepModel::Finish(Ok::<u64, ErrorModel>(0)),
            ),
        ),
        state.phase == MeasurePhase::Check ==> measure_step(state, ReplyModel::Exists(false))
            == Some(
            (
                MeasurerModel { phase: MeasurePhase::Finished, ..state },
                StepModel::Finish(Ok::<u64, ErrorModel>(0)),
            ),
        ),
        state.phase == MeasurePhase::Listing ==> measure_step(state, ReplyModel::Listed(None))
            == Some(
            (
                MeasurerModel { phase: MeasurePhase::Finished, ..state },
                StepModel::Finish(Ok::<u64, ErrorModel>(0)),
            ),
        ),
{
}

/// The only error a measurement ends with is the one that locating the
/// cache came to.
pub proof fn lemma_measuring_fails_only_unlocated(state: MeasurerModel, reply: ReplyModel)
    ensures
        match measure_step(state, reply) {
            Some((_, StepModel::Finish(Err(error)))) => state.phase == MeasurePhase::Locate
                && reply == ReplyModel::Located(Err(error)),
            _ => true,
        },
{
}

} // verus!
