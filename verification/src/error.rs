//! Error taxonomy for a scrape, and the classification of HTTP statuses.
//!
//! A failure is scoped to one source's search: the coordinator reports it
//! beside the surviving sources' results instead of aborting the whole query.

use vstd::prelude::*;
use vstd::string::StringExecFns;

use crate::strutil::{spec_dec, u64_to_dec};

verus! {

/// Why one source's search stopped.
///
/// `ConfigurationError` (an unparsable selector) and `InvalidUrl` (a
/// malformed profile URL) mean the source profile needs correction and a
/// retry is pointless. `RateLimited` is transient: the caller may re-invoke
/// later. `Blocked` means the target refuses automated access. Any other
/// non-success HTTP status, or a transport failure (carried as status 0),
/// is a generic `NetworkFailure`.
#[derive(Clone, Debug)]
pub enum ScraperError {
    ConfigurationError,
    InvalidUrl,
    RateLimited,
    Blocked,
    NetworkFailure(u16),
}

/// The message [`ScraperError::message`] renders for each failure.
pub open spec fn spec_message(e: ScraperError) -> Seq<char> {
    match e {
        ScraperError::ConfigurationError => "invalid selector in board profile"@,
        ScraperError::InvalidUrl => "malformed URL in board profile"@,
        ScraperError::RateLimited => "rate limited by the target"@,
        ScraperError::Blocked => "blocked by the target"@,
        ScraperError::NetworkFailure(status) => "network failure (status "@ + spec_dec(
            status as int,
        ) + ")"@,
    }
}

impl ScraperError {
    /// A short human-readable description of the failure.
    pub fn message(&self) -> (r: String)
        ensures
            r@ == spec_message(*self),
    {
        match self {
            ScraperError::ConfigurationError => "invalid selector in board profile".to_owned(),
            ScraperError::InvalidUrl => "malformed URL in board profile".to_owned(),
            ScraperError::RateLimited => "rate limited by the target".to_owned(),
            ScraperError::Blocked => "blocked by the target".to_owned(),
            ScraperError::NetworkFailure(status) => {
                let mut s = "network failure (status ".to_owned();
                let digits = u64_to_dec(*status as u64);
                s.append(digits.as_str());
                s.append(")");
                s
            },
        }
    }
}

/// How an HTTP status is classified: 429 is a rate limit, 403 a block,
/// 2xx a success, anything else a generic network failure.
pub open spec fn spec_classify_status(status: u16) -> Option<ScraperError> {
    if status == 429 {
        Some(ScraperError::RateLimited)
    } else if status == 403 {
        Some(ScraperError::Blocked)
    } else if 200 <= status < 300 {
        None
    } else {
        Some(ScraperError::NetworkFailure(status))
    }
}

/// Classifies the HTTP status of a fetched page: `None` means success,
/// `Some` carries the failure that ends the source's search.
pub fn classify_status(status: u16) -> (r: Option<ScraperError>)
    ensures
        r == spec_classify_status(status),
{
    if status == 429 {
        Some(ScraperError::RateLimited)
    } else if status == 403 {
        Some(ScraperError::Blocked)
    } else if 200 <= status && status < 300 {
        None
    } else {
        Some(ScraperError::NetworkFailure(status))
    }
}

} // verus!
