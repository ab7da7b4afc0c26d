//! Overload-aware retry policy for single upstream calls.
//!
//! A call is issued; on success the response is returned. On an overload
//! status (429) the caller sleeps and retries, using a provider-supplied
//! retry hint verbatim when present and exponential backoff (1, 2, 4
//! seconds) otherwise, up to three additional attempts; exhaustion surfaces a
//! terminal rate-limit error. Every other non-success status is terminal at
//! once, surfaced with its status and body. The policy decides; the caller
//! performs the call and the sleep.

use vstd::prelude::*;
use crate::errors::ApiError;
use crate::text::{spec_contains_seq, str_contains};

verus! {

/// Additional attempts allowed after the first call.
pub const MAX_RETRIES: u32 = 3;

/// HTTP status for an overload response.
pub const STATUS_TOO_MANY_REQUESTS: u16 = 429;

/// Whether a status code counts as success, as the upstream transport
/// reports it: any status in the 2xx range.
pub open spec fn spec_is_success(status: u16) -> bool {
    200 <= status < 300
}

/// Whether a status code counts as success.
pub fn is_success_status(status: u16) -> (r: bool)
    ensures
        r == spec_is_success(status),
{
    200 <= status && status < 300
}

/// Backoff before the `retry_count`-th retry when the provider gave no
/// hint: `2^(retry_count - 1)` seconds, so 1, 2, 4 seconds.
pub open spec fn spec_backoff_secs(retry_count: int) -> int {
    if retry_count <= 1 {
        1
    } else if retry_count == 2 {
        2
    } else {
        4
    }
}

/// The delay in seconds before the `retry_count`-th retry: the provider's
/// hint verbatim when present, exponential backoff otherwise.
pub open spec fn spec_retry_delay_secs(retry_count: int, hint: Option<u64>) -> int {
    match hint {
        Some(h) => h as int,
        None => spec_backoff_secs(retry_count),
    }
}

/// Compute the delay before the `retry_count`-th retry.
pub fn retry_delay_secs(retry_count: u32, hint: Option<u64>) -> (delay: u64)
    requires
        1 <= retry_count <= MAX_RETRIES,
    ensures
        delay == spec_retry_delay_secs(retry_count as int, hint),
{
    match hint {
        Some(h) => h,
        None => {
            if retry_count <= 1 {
                1
            } else if retry_count == 2 {
                2
            } else {
                4
            }
        },
    }
}

/// One scripted upstream response: the status returned and the retry hint
/// carried by its headers, if any.
#[derive(Debug, Clone, PartialEq, Eq)]
pub struct Attempt {
    pub status: u16,
    pub retry_after_secs: Option<u64>,
}

/// What the retry policy decides after seeing one response.
#[derive(Debug, Clone, PartialEq, Eq)]
pub enum RetryDecision {
    /// The response succeeded; return it.
    Accept,
    /// Overload; sleep the given number of seconds, then call again.
    RetryAfter { delay_secs: u64 },
    /// Overload and retries are exhausted; fail with `RateLimitExceeded`.
    Exhausted,
    /// A non-retryable failure; fail at once with status and body.
    Fail,
}

/// Retry progress for one logical call.
pub struct RetryState {
    /// Retries already consumed (0 through `MAX_RETRIES`).
    pub retry_count: u32,
}

/// The decision the policy takes for a response, given how many retries were
/// already consumed.
pub open spec fn spec_decide(retry_count: int, status: u16, hint: Option<u64>) -> RetryDecision {
    if spec_is_success(status) {
        RetryDecision::Accept
    } else if status == STATUS_TOO_MANY_REQUESTS {
        if retry_count >= MAX_RETRIES {
            RetryDecision::Exhausted
        } else {
            RetryDecision::RetryAfter {
                delay_secs: spec_retry_delay_secs(retry_count + 1, hint) as u64,
            }
        }
    } else {
        RetryDecision::Fail
    }
}

impl RetryState {
    /// A fresh state: no retries consumed yet.
    pub fn new() -> (s: RetryState)
        ensures
            s.retry_count == 0,
    {
        RetryState { retry_count: 0 }
    }

    /// Decide what to do with one response, consuming a retry when the
    /// decision is to retry. Success is accepted on any attempt; overload
    /// retries until `MAX_RETRIES` are consumed and is then exhausted; any
    /// other status fails at once.
    pub fn on_response(&mut self, status: u16, hint: Option<u64>) -> (decision: RetryDecision)
        requires
            old(self).retry_count <= MAX_RETRIES,
            hint matches Some(h) ==> h <= 0xffff_ffff,
        ensures
            decision == spec_decide(old(self).retry_count as int, status, hint),
            final(self).retry_count == if decision matches RetryDecision::RetryAfter { .. } {
                old(self).retry_count + 1
            } else {
                old(self).retry_count as int
            },
            final(self).retry_count <= MAX_RETRIES,
    {
        if is_success_status(status) {
            RetryDecision::Accept
        } else if status == STATUS_TOO_MANY_REQUESTS {
            if self.retry_count >= MAX_RETRIES {
                RetryDecision::Exhausted
            } else {
                self.retry_count = self.retry_count + 1;
                let delay_secs = retry_delay_secs(self.retry_count, hint);
                RetryDecision::RetryAfter { delay_secs }
            }
        } else {
            RetryDecision::Fail
        }
    }
}

/// How a retried call ends.
#[derive(Debug, Clone, PartialEq, Eq)]
pub enum RetryVerdict {
    /// A successful response was accepted.
    Success,
    /// Retries were exhausted on overload responses.
    RateLimited,
    /// A non-retryable status ended the call.
    Terminal { status: u16 },
}

/// Whether a transcript of upstream responses is long enough for a retried
/// call to finish: a non-overload response appears early enough, or
/// the whole retry budget is used up on overload responses.
pub open spec fn spec_transcript_complete(script: Seq<Attempt>, retry_count: int) -> bool
    decreases script.len(),
{
    if script.len() == 0 {
        false
    } else if script[0].status == STATUS_TOO_MANY_REQUESTS && retry_count < MAX_RETRIES {
        spec_transcript_complete(script.skip(1), retry_count + 1)
    } else {
        true
    }
}

/// The number of calls a retried call makes against a transcript.
pub open spec fn spec_retry_calls(script: Seq<Attempt>, retry_count: int) -> int
    decreases script.len(),
{
    if script.len() == 0 {
        0
    } else if script[0].status == STATUS_TOO_MANY_REQUESTS && retry_count < MAX_RETRIES {
        1 + spec_retry_calls(script.skip(1), retry_count + 1)
    } else {
        1
    }
}

/// The delays slept between attempts, in seconds, against a transcript.
pub open spec fn spec_retry_delays(script: Seq<Attempt>, retry_count: int) -> Seq<u64>
    decreases script.len(),
{
    if script.len() == 0 {
        Seq::empty()
    } else if script[0].status == STATUS_TOO_MANY_REQUESTS && retry_count < MAX_RETRIES {
        seq![
            spec_retry_delay_secs(retry_count + 1, script[0].retry_after_secs) as u64,
        ] + spec_retry_delays(script.skip(1), retry_count + 1)
    } else {
        Seq::empty()
    }
}

/// The verdict a retried call reaches against a transcript.
pub open spec fn spec_retry_verdict(script: Seq<Attempt>, retry_count: int) -> RetryVerdict
    decreases script.len(),
{
    if script.len() == 0 {
        RetryVerdict::RateLimited
    } else if spec_is_success(script[0].status) {
        RetryVerdict::Success
    } else if script[0].status == STATUS_TOO_MANY_REQUESTS {
        if retry_count >= MAX_RETRIES {
            RetryVerdict::RateLimited
        } else {
            spec_retry_verdict(script.skip(1), retry_count + 1)
        }
    } else {
        RetryVerdict::Terminal { status: script[0].status }
    }
}

/// The result of driving the retry policy against a scripted transcript of
/// upstream responses: how many calls were made, the delays slept between
/// them, and how the call ended.
pub struct RetryRun {
    pub calls: usize,
    pub delays_secs: Vec<u64>,
    pub verdict: RetryVerdict,
}

fn run_retry_from(script: &Vec<Attempt>, index: usize, state: &mut RetryState) -> (run: RetryRun)
    requires
        old(state).retry_count <= MAX_RETRIES,
        index < script@.len(),
        spec_transcript_complete(script@.skip(index as int), old(state).retry_count as int),
        forall|i: int|
            0 <= i < script@.len() ==> ((#[trigger] script@[i].retry_after_secs) matches Some(h)
                ==> h <= 0xffff_ffff),
    ensures
        run.calls == spec_retry_calls(script@.skip(index as int), old(state).retry_count as int),
        run.delays_secs@ == spec_retry_delays(
            script@.skip(index as int),
            old(state).retry_count as int,
        ),
        run.verdict == spec_retry_verdict(
            script@.skip(index as int),
            old(state).retry_count as int,
        ),
        index + run.calls <= script@.len(),
    decreases script@.len() - index,
{
    let _script_len = script.len();
    let ghost rest = script@.skip(index as int);
    proof {
        assert(rest[0] == script@[index as int]);
        assert(rest.skip(1) =~= script@.skip(index + 1));
    }
    let attempt = &script[index];
    let decision = state.on_response(attempt.status, attempt.retry_after_secs);
    match decision {
        RetryDecision::Accept => RetryRun {
            calls: 1,
            delays_secs: Vec::new(),
            verdict: RetryVerdict::Success,
        },
        RetryDecision::RetryAfter { delay_secs } => {
            proof {
                assert(spec_transcript_complete(
                    script@.skip(index + 1),
                    state.retry_count as int,
                ));
                assert(script@.skip(index + 1).len() > 0);
            }
            let mut run = run_retry_from(script, index + 1, state);
            let mut delays: Vec<u64> = Vec::new();
            delays.push(delay_secs);
            let mut k: usize = 0;
            while k < run.delays_secs.len()
                invariant
                    k <= run.delays_secs@.len(),
                    delays@ == seq![delay_secs].add(run.delays_secs@.take(k as int)),
                decreases run.delays_secs@.len() - k,
            {
                let d = run.delays_secs[k];
                delays.push(d);
                proof {
                    assert(run.delays_secs@.take(k + 1) =~= run.delays_secs@.take(k as int).push(
                        d,
                    ));
                }
                k = k + 1;
            }
            proof {
                assert(run.delays_secs@.take(run.delays_secs@.len() as int) =~= run.delays_secs@);
            }
            RetryRun { calls: run.calls + 1, delays_secs: delays, verdict: run.verdict }
        },
        RetryDecision::Exhausted => RetryRun {
            calls: 1,
            delays_secs: Vec::new(),
            verdict: RetryVerdict::RateLimited,
        },
        RetryDecision::Fail => RetryRun {
            calls: 1,
            delays_secs: Vec::new(),
            verdict: RetryVerdict::Terminal { status: attempt.status },
        },
    }
}

/// Drive the retry policy against a scripted transcript: the first response
/// answers the first call, and each retry consumes the next response. The
/// run reports the calls made, the delays between them, and the verdict.
pub fn run_retry_transcript(script: &Vec<Attempt>) -> (run: RetryRun)
    requires
        script@.len() > 0,
        spec_transcript_complete(script@, 0),
        forall|i: int|
            0 <= i < script@.len() ==> ((#[trigger] script@[i].retry_after_secs) matches Some(h)
                ==> h <= 0xffff_ffff),
    ensures
        run.calls == spec_retry_calls(script@, 0),
        run.delays_secs@ == spec_retry_delays(script@, 0),
        run.verdict == spec_retry_verdict(script@, 0),
        run.calls <= script@.len(),
        run.calls <= MAX_RETRIES + 1,
{
    proof {
        assert(script@.skip(0) =~= script@);
        lemma_retry_calls_bounded(script@, 0);
    }
    let mut state = RetryState::new();
    run_retry_from(script, 0, &mut state)
}

/// A retried call never makes more than one call plus the allowed retries.
proof fn lemma_retry_calls_bounded(script: Seq<Attempt>, retry_count: int)
    requires
        0 <= retry_count <= MAX_RETRIES,
    ensures
        spec_retry_calls(script, retry_count) <= 1 + MAX_RETRIES - retry_count,
    decreases script.len(),
{
    if script.len() > 0 && script[0].status == STATUS_TOO_MANY_REQUESTS
        && retry_count < MAX_RETRIES {
        lemma_retry_calls_bounded(script.skip(1), retry_count + 1);
    }
}

/// Map a verdict to the error surfaced for the item, if any: exhausted
/// retries surface `RateLimitExceeded`, a terminal status surfaces
/// `UpstreamError` with its status and body.
pub fn verdict_error(verdict: &RetryVerdict, body: String) -> (r: Option<ApiError>)
    ensures
        match verdict {
            RetryVerdict::Success => r is None,
            RetryVerdict::RateLimited => r == Some(ApiError::RateLimitExceeded),
            RetryVerdict::Terminal { status } => r == Some(
                ApiError::UpstreamError { status: *status, body },
            ),
        },
{
    match verdict {
        RetryVerdict::Success => None,
        RetryVerdict::RateLimited => Some(ApiError::RateLimitExceeded),
        RetryVerdict::Terminal { status } => Some(
            ApiError::UpstreamError { status: *status, body },
        ),
    }
}

/// The one documented special case of upsell retrieval: the upstream's
/// "no upsell offers found" business error (code 39397, on a 400 status) is
/// translated into an empty successful result rather than surfaced as an
/// error. Everything else keeps its error.
pub fn upsell_means_empty(status: u16, body: &str) -> (r: bool)
    ensures
        r == (status == 400 && spec_contains_seq(body@, "39397"@)),
{
    status == 400 && str_contains(body, "39397")
}

/// Whether a pricing failure is the upstream's "no fare applicable" error
/// (code 4926), which is reported to the caller as a rejected request
/// rather than an upstream outage.
pub fn pricing_means_no_fare(message: &str) -> (r: bool)
    ensures
        r == (spec_contains_seq(message@, "4926"@) || spec_contains_seq(
            message@,
            "No fare applicable"@,
        )),
{
    str_contains(message, "4926") || str_contains(message, "No fare applicable")
}

} // verus!
