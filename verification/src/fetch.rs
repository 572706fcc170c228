//! What a single HTTP GET came to, and whether it counts as a download.

use vstd::prelude::*;
use crate::error::CacheError;
use crate::error::ErrorModel;
use crate::text::chars_of;

verus! {

/// What the transport reports for one GET request.
#[derive(Debug, PartialEq, Eq)]
pub enum FetchOutcome {
    /// No response arrived: DNS, connection or TLS failed.
    Unreachable(String),
    /// A response arrived with this status, but its body could not be read.
    BodyLost { status: u16, detail: String },
    /// A response arrived with this status and this body.
    Response { status: u16, body: Vec<u8> },
}

/// A `FetchOutcome` with its texts and bytes as sequences.
pub ghost enum OutcomeModel {
    Unreachable(Seq<char>),
    BodyLost { status: u16, detail: Seq<char> },
    Response { status: u16, body: Seq<u8> },
}

impl View for FetchOutcome {
    type V = OutcomeModel;

    open spec fn view(&self) -> OutcomeModel {
        match *self {
            FetchOutcome::Unreachable(detail) => OutcomeModel::Unreachable(detail@),
            FetchOutcome::BodyLost { status, detail } => OutcomeModel::BodyLost {
                status,
                detail: detail@,
            },
            FetchOutcome::Response { status, body } => OutcomeModel::Response {
                status,
                body: body@,
            },
        }
    }
}

/// Whether a URL is fetched at all: only absolute `http://` and `https://`
/// URLs are; anything else is taken to be local already.
pub open spec fn is_remote(url: Seq<char>) -> bool {
    "http://"@.is_prefix_of(url) || "https://"@.is_prefix_of(url)
}

/// A status from 200 to 299.
pub open spec fn is_success(status: u16) -> bool {
    200 <= status < 300
}

/// What a download yields: the body of a successful response, or the reason
/// there is none. The status is judged before the body is looked at.
pub open spec fn downloaded(outcome: OutcomeModel) -> Result<Seq<u8>, ErrorModel> {
    match outcome {
        OutcomeModel::Unreachable(detail) => Err(ErrorModel::Network(detail)),
        OutcomeModel::BodyLost { status, detail } => if is_success(status) {
            Err(ErrorModel::Network(detail))
        } else {
            Err(ErrorModel::Http(status))
        },
        OutcomeModel::Response { status, body } => if is_success(status) {
            Ok(body)
        } else {
            Err(ErrorModel::Http(status))
        },
    }
}

/// A download that yielded `body`.
pub open spec fn served(body: Seq<u8>) -> Result<Seq<u8>, ErrorModel> {
    Ok(body)
}

/// The view of a download result.
pub open spec fn download_view(result: Result<Vec<u8>, CacheError>) -> Result<
    Seq<u8>,
    ErrorModel,
> {
    match result {
        Ok(body) => Ok(body@),
        Err(error) => Err(error@),
    }
}

/// Whether `prefix` stands at the start of `chars`.
fn starts_with(chars: &[char], prefix: &[char]) -> (found: bool)
    ensures
        found == prefix@.is_prefix_of(chars@),
{
    if prefix.len() > chars.len() {
        return false;
    }
    let mut i: usize = 0;
    while i < prefix.len()
        invariant
            i <= prefix@.len() <= chars@.len(),
            forall|j: int| 0 <= j < i ==> prefix@[j] == chars@[j],
        decreases prefix.len() - i,
    {
        if prefix[i] != chars[i] {
            assert(prefix@[i as int] != chars@.subrange(0, prefix@.len() as int)[i as int]);
            return false;
        }
        i += 1;
    }
    assert(prefix@ =~= chars@.subrange(0, prefix@.len() as int));
    true
}

/// Tells a remote URL from a local reference.
pub fn is_remote_url(url: &str) -> (remote: bool)
    ensures
        remote == is_remote(url@),
{
    let chars = chars_of(url);
    let http = chars_of("http://");
    let https = chars_of("https://");
    starts_with(chars.as_slice(), http.as_slice()) || starts_with(
        chars.as_slice(),
        https.as_slice(),
    )
}

/// Tells a successful status from a failed one.
pub fn is_success_status(status: u16) -> (success: bool)
    ensures
        success == is_success(status),
{
    200 <= status && status < 300
}

/// Judges one GET: a response outside 200..=299 is an HTTP error whatever its
/// body, a missing or unreadable response is a network error.
pub fn download_result(outcome: FetchOutcome) -> (result: Result<Vec<u8>, CacheError>)
    ensures
        download_view(result) == downloaded(outcome@),
{
    match outcome {
        FetchOutcome::Unreachable(detail) => Err(CacheError::Network(detail)),
        FetchOutcome::BodyLost { status, detail } => {
            if is_success_status(status) {
                Err(CacheError::Network(detail))
            } else {
                Err(CacheError::Http(status))
            }
        },
        FetchOutcome::Response { status, body } => {
            if is_success_status(status) {
                Ok(body)
            } else {
                Err(CacheError::Http(status))
            }
        },
    }
}

/// Why an outcome is no download, if it is none.
pub fn download_failure(outcome: &FetchOutcome) -> (failure: Option<CacheError>)
    ensures
        match downloaded(outcome@) {
            Ok(_) => failure is None,
            Err(error) => failure matches Some(found) && found@ == error,
        },
{
    match outcome {
        FetchOutcome::Unreachable(detail) => Some(CacheError::Network(detail.clone())),
        FetchOutcome::BodyLost { status, detail } => {
            if is_success_status(*status) {
                Some(CacheError::Network(detail.clone()))
            } else {
                Some(CacheError::Http(*status))
            }
        },
        FetchOutcome::Response { status, .. } => {
            if is_success_status(*status) {
                None
            } else {
                Some(CacheError::Http(*status))
            }
        },
    }
}

/// A response outside 200..=299 is judged by its status alone: its body,
/// whether it was read or not, changes nothing.
pub proof fn lemma_refused_response_ignores_body(status: u16, body: Seq<u8>, detail: Seq<char>)
    requires
        !is_success(status),
    ensures
        downloaded(OutcomeModel::Response { status, body }) == Err::<Seq<u8>, ErrorModel>(
            ErrorModel::Http(status),
        ),
        downloaded(OutcomeModel::BodyLost { status, detail }) == Err::<Seq<u8>, ErrorModel>(
            ErrorModel::Http(status),
        ),
{
}

} // verus!
