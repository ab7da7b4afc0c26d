//! Credential manager: obtains and caches the upstream bearer token.
//!
//! A token is cached together with its expiry. A reader uses the cached
//! token only while it has more than a safety margin of life left; otherwise
//! the token is refreshed under exclusive access, with a second check after
//! the exclusive access is won, so that callers racing on one expired token
//! perform a single refresh. On refresh the new expiry is the issue time
//! plus the advertised lifetime less a safety buffer.
//!
//! The store decides; the caller performs the locking and the refresh call.

use vstd::prelude::*;

verus! {

/// A cached token must have more than this many milliseconds of remaining
/// life to be handed out.
pub const TOKEN_REUSE_MARGIN_MS: u64 = 60_000;

/// Seconds subtracted from the advertised lifetime when the expiry of a
/// freshly stored token is computed.
pub const TOKEN_REFRESH_BUFFER_SECS: u64 = 120;

/// Body of the upstream token endpoint's successful reply.
#[derive(Debug, Clone)]
pub struct TokenResponse {
    pub access_token: String,
    pub token_type: String,
    pub expires_in: i64,
}

/// Error report of the upstream auth endpoint.
#[derive(Debug, Clone)]
pub struct AmadeusError {
    pub errors: Option<Vec<AmadeusErrorDetail>>,
}

/// One error detail of the upstream auth endpoint.
#[derive(Debug, Clone)]
pub struct AmadeusErrorDetail {
    pub status: Option<i32>,
    pub code: Option<i32>,
    pub title: Option<String>,
    pub detail: Option<String>,
}

/// A bearer token with the time it stops being handed out.
#[derive(Debug, Clone)]
pub struct CachedToken {
    pub token: String,
    pub expires_at_ms: u64,
}

/// The shared token cache. One instance per upstream credential.
pub struct TokenStore {
    pub cached: Option<CachedToken>,
}

/// Whether a token that expires at `expires_at_ms` may still be handed out
/// at `now_ms`: more than the reuse margin of life must remain.
pub open spec fn spec_token_usable(expires_at_ms: u64, now_ms: u64) -> bool {
    expires_at_ms > now_ms + TOKEN_REUSE_MARGIN_MS
}

/// The expiry recorded for a token issued at `now_ms` with an advertised
/// lifetime of `expires_in_secs`: the issue time plus the lifetime less the
/// safety buffer, clamped at the clock's range.
pub open spec fn spec_refreshed_expiry(now_ms: u64, expires_in_secs: u64) -> u64 {
    let buffered = if expires_in_secs >= TOKEN_REFRESH_BUFFER_SECS {
        (expires_in_secs - TOKEN_REFRESH_BUFFER_SECS) as u64
    } else {
        0u64
    };
    if now_ms + buffered * 1000 <= u64::MAX {
        (now_ms + buffered * 1000) as u64
    } else {
        u64::MAX
    }
}

impl TokenStore {
    /// An empty cache: the first caller refreshes.
    pub fn new() -> (store: TokenStore)
        ensures
            store.cached is None,
    {
        TokenStore { cached: None }
    }

    /// The read-lock fast path: the cached token, if it has more than the
    /// reuse margin of life left at `now_ms`; nothing otherwise.
    pub fn token_if_fresh(&self, now_ms: u64) -> (r: Option<String>)
        requires
            now_ms <= u64::MAX - TOKEN_REUSE_MARGIN_MS,
        ensures
            match self.cached {
                Some(c) => if spec_token_usable(c.expires_at_ms, now_ms) {
                    r == Some(c.token)
                } else {
                    r is None
                },
                None => r is None,
            },
    {
        match &self.cached {
            Some(c) => {
                if c.expires_at_ms > now_ms + TOKEN_REUSE_MARGIN_MS {
                    Some(c.token.clone())
                } else {
                    None
                }
            },
            None => None,
        }
    }

    /// The write-lock re-check: whether a refresh is still needed once
    /// exclusive access is held. True exactly when no cached token is usable
    /// at `now_ms`.
    pub fn needs_refresh(&self, now_ms: u64) -> (r: bool)
        requires
            now_ms <= u64::MAX - TOKEN_REUSE_MARGIN_MS,
        ensures
            r == match self.cached {
                Some(c) => !spec_token_usable(c.expires_at_ms, now_ms),
                None => true,
            },
    {
        match &self.cached {
            Some(c) => c.expires_at_ms <= now_ms + TOKEN_REUSE_MARGIN_MS,
            None => true,
        }
    }

    /// Record a freshly fetched token, stamping its expiry from the issue
    /// time and the advertised lifetime less the safety buffer.
    pub fn store_refreshed(&mut self, token: String, now_ms: u64, expires_in_secs: u64)
        ensures
            final(self).cached == Some(
                CachedToken {
                    token,
                    expires_at_ms: spec_refreshed_expiry(now_ms, expires_in_secs),
                },
            ),
    {
        let buffered: u64 = if expires_in_secs >= TOKEN_REFRESH_BUFFER_SECS {
            expires_in_secs - TOKEN_REFRESH_BUFFER_SECS
        } else {
            0
        };
        let lifetime_ms = match buffered.checked_mul(1000) {
            Some(ms) => ms,
            None => u64::MAX,
        };
        let expires_at_ms = match now_ms.checked_add(lifetime_ms) {
            Some(t) => t,
            None => u64::MAX,
        };
        proof {
            if buffered * 1000 > u64::MAX {
                assert(now_ms + buffered * 1000 > u64::MAX);
            }
        }
        self.cached = Some(CachedToken { token, expires_at_ms });
    }
}

/// The expiry on hand after `n` racing callers have each run the
/// double-checked protocol in turn at time `now_ms` against a cache whose
/// token (if any) expires at `expiry`: a caller whose check finds a usable
/// token leaves the cache alone; any other refreshes.
pub open spec fn spec_expiry_after_callers(
    expiry: Option<u64>,
    now_ms: u64,
    expires_in_secs: u64,
    n: nat,
) -> Option<u64>
    decreases n,
{
    if n == 0 {
        expiry
    } else {
        let before = spec_expiry_after_callers(expiry, now_ms, expires_in_secs, (n - 1) as nat);
        match before {
            Some(e) => if spec_token_usable(e, now_ms) {
                before
            } else {
                Some(spec_refreshed_expiry(now_ms, expires_in_secs))
            },
            None => Some(spec_refreshed_expiry(now_ms, expires_in_secs)),
        }
    }
}

/// The number of refresh calls those `n` callers make in total.
pub open spec fn spec_refreshes_by_callers(
    expiry: Option<u64>,
    now_ms: u64,
    expires_in_secs: u64,
    n: nat,
) -> nat
    decreases n,
{
    if n == 0 {
        0
    } else {
        let before = spec_expiry_after_callers(expiry, now_ms, expires_in_secs, (n - 1) as nat);
        let earlier = spec_refreshes_by_callers(expiry, now_ms, expires_in_secs, (n - 1) as nat);
        match before {
            Some(e) => if spec_token_usable(e, now_ms) {
                earlier
            } else {
                earlier + 1
            },
            None => earlier + 1,
        }
    }
}

/// Law: when any number of callers race on a stale (or absent) cached token
/// and each runs the double-checked protocol in turn, exactly one upstream
/// refresh call is made, provided the fetched token's lifetime leaves it
/// usable at once (more than the safety buffer plus the reuse margin, and
/// within the clock's range).
pub proof fn lemma_single_refresh_under_contention(
    expiry: Option<u64>,
    now_ms: u64,
    expires_in_secs: u64,
    n: nat,
)
    requires
        n >= 1,
        match expiry {
            Some(e) => !spec_token_usable(e, now_ms),
            None => true,
        },
        spec_token_usable(spec_refreshed_expiry(now_ms, expires_in_secs), now_ms),
    ensures
        spec_refreshes_by_callers(expiry, now_ms, expires_in_secs, n) == 1,
        spec_expiry_after_callers(expiry, now_ms, expires_in_secs, n) == Some(
            spec_refreshed_expiry(now_ms, expires_in_secs),
        ),
    decreases n,
{
    if n == 1 {
        assert(spec_expiry_after_callers(expiry, now_ms, expires_in_secs, 0) == expiry);
        assert(spec_refreshes_by_callers(expiry, now_ms, expires_in_secs, 0) == 0);
    } else {
        lemma_single_refresh_under_contention(expiry, now_ms, expires_in_secs, (n - 1) as nat);
    }
}

} // verus!
