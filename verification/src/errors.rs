//! Error taxonomy of the orchestration core.
//!
//! Whole-request failures (a token that cannot be obtained) abort before any
//! sub-query starts; per-item failures (retries exhausted, an upstream error
//! status, a malformed response) are isolated and surfaced as that item's
//! error event while the batch continues; a cache failure is never fatal.

use vstd::prelude::*;
use crate::models::AmadeusErrorResponse;

verus! {

/// Failure of one upstream interaction or of a whole request's precondition.
#[derive(Debug, Clone, PartialEq, Eq)]
pub enum ApiError {
    /// The bearer token could not be obtained or refreshed. Fatal for the
    /// whole request.
    AuthFailure { detail: String },
    /// Retries were exhausted on overload responses. Reported as the one
    /// sub-query's error; the batch continues.
    RateLimitExceeded,
    /// A non-retryable upstream failure, with the status and body returned.
    UpstreamError { status: u16, body: String },
    /// The response did not match the expected schema.
    DecodeError { detail: String },
    /// The cache store could not be reached. Never fatal: lookups degrade to
    /// misses and stores to no-ops.
    CacheUnavailable,
}

impl ApiError {
    /// Short label naming the error variant.
    pub fn label(&self) -> (s: &'static str)
        ensures
            s@ == match self {
                ApiError::AuthFailure { .. } => "auth failure"@,
                ApiError::RateLimitExceeded => "rate limit exceeded"@,
                ApiError::UpstreamError { .. } => "upstream error"@,
                ApiError::DecodeError { .. } => "decode error"@,
                ApiError::CacheUnavailable => "cache unavailable"@,
            },
    {
        match self {
            ApiError::AuthFailure { .. } => "auth failure",
            ApiError::RateLimitExceeded => "rate limit exceeded",
            ApiError::UpstreamError { .. } => "upstream error",
            ApiError::DecodeError { .. } => "decode error",
            ApiError::CacheUnavailable => "cache unavailable",
        }
    }
}

/// Whether an upstream error report carries the given error code, as when
/// an order creation fails on the sandbox's segment-sell error.
pub fn has_error_code(report: &AmadeusErrorResponse, code: i32) -> (r: bool)
    ensures
        r == exists|i: int|
            0 <= i < report.errors@.len() && (#[trigger] report.errors@[i]).code == Some(code),
{
    let mut i: usize = 0;
    while i < report.errors.len()
        invariant
            i <= report.errors@.len(),
            forall|j: int| 0 <= j < i ==> (#[trigger] report.errors@[j]).code != Some(code),
        decreases report.errors@.len() - i,
    {
        match report.errors[i].code {
            Some(c) => {
                if c == code {
                    return true;
                }
            },
            None => (),
        }
        i = i + 1;
    }
    false
}

} // verus!
