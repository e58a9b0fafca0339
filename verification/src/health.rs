//! The health probe: what one HTTP answer says about an endpoint.
//!
//! The probe is a single GET request to the address the caller gave. The
//! request is sent elsewhere; this module judges what came back. An answer
//! with a status from 200 to 299 means healthy, an answer with any other
//! status means unhealthy, and a request that got no answer at all (the
//! address was malformed, the host unknown, the connection refused) is an
//! error and never a verdict.

use vstd::prelude::*;
use crate::failure::{failure_message, failure_text};

verus! {

/// The status codes that count as success: 200 to 299, both included.
pub open spec fn is_success_status(code: int) -> bool {
    200 <= code <= 299
}

/// What the probe reports for an `outcome`: the status code of the answer, or
/// the description of why there was none.
pub open spec fn health_verdict(outcome: Result<u16, Seq<char>>) -> Result<bool, Seq<char>> {
    match outcome {
        Ok(code) => Ok(is_success_status(code as int)),
        Err(description) => Err(failure_text(description)),
    }
}

/// The outcome of a probe with the texts in it taken by their views.
pub open spec fn outcome_view(outcome: Result<u16, String>) -> Result<u16, Seq<char>> {
    match outcome {
        Ok(code) => Ok(code),
        Err(description) => Err(description@),
    }
}

/// A verdict with the text in it taken by its view.
pub open spec fn verdict_view(verdict: Result<bool, String>) -> Result<bool, Seq<char>> {
    match verdict {
        Ok(healthy) => Ok(healthy),
        Err(message) => Err(message@),
    }
}

/// Tells whether `code` is a success status.
pub fn status_is_success(code: u16) -> (success: bool)
    ensures
        success == is_success_status(code as int),
{
    200 <= code && code < 300
}

/// Judges the outcome of one probe.
///
/// `outcome` is `Ok` with the status code when the endpoint answered, whatever
/// it answered, and `Err` with the transport's description of the failure when
/// it did not. The verdict is `Ok(true)` for a success status, `Ok(false)` for
/// every other status, and an error message for a failed request.
pub fn check_api_health(outcome: Result<u16, String>) -> (verdict: Result<bool, String>)
    ensures
        verdict_view(verdict) == health_verdict(outcome_view(outcome)),
        verdict is Ok <==> outcome is Ok,
        outcome matches Ok(code) ==> verdict == Ok::<bool, String>(200 <= code <= 299),
        outcome matches Err(description) ==> verdict matches Err(message) && message@
            == failure_text(description@),
{
    match outcome {
        Ok(code) => Ok(status_is_success(code)),
        Err(description) => Err(failure_message(description.as_str())),
    }
}

} // verus!
