//! Release locator decisions: when the persisted cache short-circuits the
//! network, and how the outcome of a release-index query resolves to a
//! version tag.  Rate limiting is a recoverable condition, not an error:
//! as long as a cached or installed version exists, it is used instead.

use crate::cache::{spec_expired, VersionCache};
use crate::strutil::{spec_u64_digits, u64_to_string};
use crate::types::OpencodeError;
use vstd::prelude::*;
use vstd::string::StringExecFns;

verus! {

/// First step of resolving the latest version: a fresh cache answers
/// immediately, anything else requires a query to the release index.
#[derive(Debug, Clone, PartialEq, Eq)]
pub enum FetchPlan {
    UseCached { version: String },
    QueryIndex,
}

/// Decide whether the persisted cache answers the version query.  A network
/// query is planned only when no record exists or the record has expired.
pub fn plan_fetch(cache: Option<&VersionCache>, now: u64) -> (r: FetchPlan)
    ensures
        match cache {
            Some(c) => if spec_expired(c.timestamp, now) {
                r is QueryIndex
            } else {
                r matches FetchPlan::UseCached { version } && version@ == c.version@
            },
            None => r is QueryIndex,
        },
{
    match cache {
        Some(c) => {
            if c.is_expired(now) {
                FetchPlan::QueryIndex
            } else {
                FetchPlan::UseCached { version: c.version.clone() }
            }
        },
        None => FetchPlan::QueryIndex,
    }
}

/// What came back from the release index: a response with its HTTP status
/// and the tag parsed from the body (absent when the body did not hold
/// one), or no response at all.
#[derive(Debug, Clone, PartialEq, Eq)]
pub enum IndexOutcome {
    Response { status: u16, tag: Option<String> },
    NetworkFailure { message: String },
}

/// An HTTP status the index reports success with.
pub open spec fn spec_http_success(status: u16) -> bool {
    200 <= status < 300
}

/// An HTTP status that signals rate limiting rather than failure.
pub open spec fn spec_rate_limited(status: u16) -> bool {
    status == 403 || status == 429
}

/// A resolved version tag, and whether it is fresh from the index and must
/// be persisted to the cache.
#[derive(Debug, Clone, PartialEq, Eq)]
pub struct FetchResolution {
    pub version: String,
    pub store: bool,
}

/// The version the fallback chain yields once the index cannot answer: the
/// cached tag regardless of expiry, else the installed binary's tag, else
/// nothing.
pub open spec fn spec_fallback_version(
    cache: Option<VersionCache>,
    installed: Option<String>,
) -> Option<Seq<char>> {
    match cache {
        Some(c) => Some(c.version@),
        None => match installed {
            Some(i) => Some(i@),
            None => None,
        },
    }
}

/// Resolve the version the fallback chain yields, or the hard failure when
/// it is empty.
fn fallback_resolution(cache: Option<VersionCache>, installed: Option<String>) -> (r: Result<
    FetchResolution,
    OpencodeError,
>)
    ensures
        match spec_fallback_version(cache, installed) {
            Some(v) => r matches Ok(res) && res.version@ == v && !res.store,
            None => r matches Err(e) && e matches OpencodeError::DownloadError { message }
                && message@ == "release index rate limited and no cached or installed version"@,
        },
{
    match cache {
        Some(c) => Ok(FetchResolution { version: c.version, store: false }),
        None => match installed {
            Some(i) => Ok(FetchResolution { version: i, store: false }),
            None => Err(
                OpencodeError::DownloadError {
                    message: String::from_str(
                        "release index rate limited and no cached or installed version",
                    ),
                },
            ),
        },
    }
}

/// Resolve what a release-index query yielded.
///
/// A successful response with a tag resolves to that tag, to be persisted.
/// A rate-limited response or no response at all degrades to the fallback
/// chain and is an error only when that chain is empty.  Any other failing
/// status is a download error naming the status; a successful response
/// without a tag is a download error as well.
pub fn resolve_fetch_outcome(
    outcome: IndexOutcome,
    cache: Option<VersionCache>,
    installed: Option<String>,
) -> (r: Result<FetchResolution, OpencodeError>)
    ensures
        match outcome {
            IndexOutcome::Response { status, tag } => {
                if spec_http_success(status) {
                    match tag {
                        Some(t) => r matches Ok(res) && res.version@ == t@ && res.store,
                        None => r matches Err(e) && e matches OpencodeError::DownloadError {
                            message,
                        } && message@ == "invalid release response"@,
                    }
                } else if spec_rate_limited(status) {
                    match spec_fallback_version(cache, installed) {
                        Some(v) => r matches Ok(res) && res.version@ == v && !res.store,
                        None => r is Err,
                    }
                } else {
                    r matches Err(e) && e matches OpencodeError::DownloadError { message }
                        && message@ == "release index returned status: "@ + spec_u64_digits(
                        status as nat,
                    )
                }
            },
            IndexOutcome::NetworkFailure { .. } => match spec_fallback_version(cache, installed) {
                Some(v) => r matches Ok(res) && res.version@ == v && !res.store,
                None => r is Err,
            },
        },
{
    match outcome {
        IndexOutcome::Response { status, tag } => {
            if 200 <= status && status < 300 {
                match tag {
                    Some(t) => Ok(FetchResolution { version: t, store: true }),
                    None => Err(
                        OpencodeError::DownloadError {
                            message: String::from_str("invalid release response"),
                        },
                    ),
                }
            } else if status == 403 || status == 429 {
                fallback_resolution(cache, installed)
            } else {
                let mut message = String::from_str("release index returned status: ");
                let digits = u64_to_string(status as u64);
                message.append(digits.as_str());
                Err(OpencodeError::DownloadError { message })
            }
        },
        IndexOutcome::NetworkFailure { .. } => fallback_resolution(cache, installed),
    }
}

} // verus!
