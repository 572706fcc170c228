//! The questions a cache operation puts to its surroundings, and the answers.
//!
//! The library never touches the disk or the network. An operation is a small
//! machine: it asks for one thing at a time, the caller does it and hands the
//! answer back, until the operation finishes with its result.

use vstd::prelude::*;
use crate::error::CacheError;
use crate::error::message_text;
use crate::error::ErrorModel;
use crate::fetch::download_failure;
use crate::fetch::downloaded;
use crate::fetch::FetchOutcome;
use crate::fetch::OutcomeModel;
use crate::store::EntryInfo;

verus! {

/// One thing for the caller to do.
#[derive(Debug, PartialEq, Eq)]
pub enum Request {
    /// Name the cache directory of the application.
    LocateCache,
    /// Create the directory and its parents; nothing to do if it exists.
    EnsureDir { dir: String },
    /// Tell whether anything exists at the path.
    Exists { path: String },
    /// Issue one GET for the URL.
    Fetch { url: String },
    /// Write the bytes as the whole content of the file.
    Write { path: String, bytes: Vec<u8> },
    /// Remove the directory with all it holds.
    RemoveDir { dir: String },
    /// List what lies directly in the directory.
    ListDir { dir: String },
}

/// A `Request` with its texts and bytes as sequences.
pub ghost enum RequestModel {
    LocateCache,
    EnsureDir { dir: Seq<char> },
    Exists { path: Seq<char> },
    Fetch { url: Seq<char> },
    Write { path: Seq<char>, bytes: Seq<u8> },
    RemoveDir { dir: Seq<char> },
    ListDir { dir: Seq<char> },
}

impl View for Request {
    type V = RequestModel;

    open spec fn view(&self) -> RequestModel {
        match *self {
            Request::LocateCache => RequestModel::LocateCache,
            Request::EnsureDir { dir } => RequestModel::EnsureDir { dir: dir@ },
            Request::Exists { path } => RequestModel::Exists { path: path@ },
            Request::Fetch { url } => RequestModel::Fetch { url: url@ },
            Request::Write { path, bytes } => RequestModel::Write { path: path@, bytes: bytes@ },
            Request::RemoveDir { dir } => RequestModel::RemoveDir { dir: dir@ },
            Request::ListDir { dir } => RequestModel::ListDir { dir: dir@ },
        }
    }
}

/// The answer to a request.
#[derive(Debug, PartialEq, Eq)]
pub enum Reply {
    /// To `LocateCache`: the directory as text, or why it cannot be had.
    Located(Result<String, CacheError>),
    /// To `EnsureDir`, `Write` and `RemoveDir`: done, or why not.
    Completed(Result<(), CacheError>),
    /// To `Exists`.
    Exists(bool),
    /// To `Fetch`.
    Fetched(FetchOutcome),
    /// To `ListDir`: the entries, or `None` if the directory cannot be read.
    Listed(Option<Vec<EntryInfo>>),
}

/// A `Reply` with its texts and bytes as sequences.
pub ghost enum ReplyModel {
    Located(Result<Seq<char>, ErrorModel>),
    Completed(Result<(), ErrorModel>),
    Exists(bool),
    Fetched(OutcomeModel),
    Listed(Option<Seq<EntryInfo>>),
}

/// The view of the answer to `EnsureDir`, `Write` or `RemoveDir`.
pub open spec fn completion_view(result: Result<(), CacheError>) -> Result<(), ErrorModel> {
    match result {
        Ok(()) => Ok(()),
        Err(error) => Err(error@),
    }
}

impl View for Reply {
    type V = ReplyModel;

    open spec fn view(&self) -> ReplyModel {
        match *self {
            Reply::Located(result) => ReplyModel::Located(text_result_view(result)),
            Reply::Completed(result) => ReplyModel::Completed(completion_view(result)),
            Reply::Exists(exists) => ReplyModel::Exists(exists),
            Reply::Fetched(outcome) => ReplyModel::Fetched(outcome@),
            Reply::Listed(listing) => ReplyModel::Listed(
                match listing {
                    Some(entries) => Some(entries@),
                    None => None,
                },
            ),
        }
    }
}

/// The failure that a reply reports, if it reports one: the error of a
/// request that could not be done, or the reason a GET is no download.
pub open spec fn reported_failure(reply: ReplyModel) -> Option<ErrorModel> {
    match reply {
        ReplyModel::Located(Err(error)) => Some(error),
        ReplyModel::Completed(Err(error)) => Some(error),
        ReplyModel::Fetched(outcome) => match downloaded(outcome) {
            Ok(_) => None,
            Err(error) => Some(error),
        },
        _ => None,
    }
}

impl Reply {
    /// The message of the failure that this reply reports, if it reports
    /// one.
    pub fn failure(&self) -> (reason: Option<String>)
        ensures
            match reported_failure(self@) {
                Some(error) => reason matches Some(text) && text@ == message_text(error),
                None => reason is None,
            },
    {
        match self {
            Reply::Located(Err(error)) => Some(error.message()),
            Reply::Completed(Err(error)) => Some(error.message()),
            Reply::Fetched(outcome) => match download_failure(outcome) {
                Some(error) => Some(error.message()),
                None => None,
            },
            _ => None,
        }
    }
}

/// What an operation wants next: an answer to a request, or nothing more.
#[derive(Debug, PartialEq, Eq)]
pub enum Step<T> {
    Ask(Request),
    Finish(T),
}

/// A `Step` with its request and result as models.
pub ghost enum StepModel<T> {
    Ask(RequestModel),
    Finish(T),
}

/// The view of a result that is a path or a URL.
pub open spec fn text_result_view(result: Result<String, CacheError>) -> Result<
    Seq<char>,
    ErrorModel,
> {
    match result {
        Ok(text) => Ok(text@),
        Err(error) => Err(error@),
    }
}

/// The view of a result that is a number of bytes.
pub open spec fn size_result_view(result: Result<u64, CacheError>) -> Result<u64, ErrorModel> {
    match result {
        Ok(size) => Ok(size),
        Err(error) => Err(error@),
    }
}

/// The view of a step of an operation that ends in a path or a URL.
pub open spec fn text_step_view(step: Step<Result<String, CacheError>>) -> StepModel<
    Result<Seq<char>, ErrorModel>,
> {
    match step {
        Step::Ask(request) => StepModel::Ask(request@),
        Step::Finish(result) => StepModel::Finish(text_result_view(result)),
    }
}

/// The view of a step of an operation that ends in nothing but success.
pub open spec fn unit_step_view(step: Step<Result<(), CacheError>>) -> StepModel<
    Result<(), ErrorModel>,
> {
    match step {
        Step::Ask(request) => StepModel::Ask(request@),
        Step::Finish(result) => StepModel::Finish(completion_view(result)),
    }
}

/// The view of a step of an operation that ends in a number of bytes.
pub open spec fn size_step_view(step: Step<Result<u64, CacheError>>) -> StepModel<
    Result<u64, ErrorModel>,
> {
    match step {
        Step::Ask(request) => StepModel::Ask(request@),
        Step::Finish(result) => StepModel::Finish(size_result_view(result)),
    }
}

} // verus!
