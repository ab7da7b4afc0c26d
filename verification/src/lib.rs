//! Query orchestration core for a flight-offer search service.
//!
//! The library schedules rate-limited, cached, partially-failable calls to a
//! slow upstream data provider and delivers results incrementally: a pacing
//! gate enforces the provider's transactions-per-second ceiling, a credential
//! store refreshes bearer tokens before they expire, a retrying caller handles
//! overload responses with backoff, a cache-aside layer is consulted before
//! any rate-limit budget is spent, a combination generator expands batch
//! searches into independent sub-queries, and a streaming emitter turns the
//! sub-query outcomes into an ordered event stream with one final summary.

use vstd::prelude::*;

pub mod batch;
pub mod cachekey;
pub mod credentials;
pub mod error_codes;
pub mod errors;
pub mod fanout;
pub mod models;
pub mod ndc_models;
pub mod provider;
pub mod queries;
pub mod rate_limiter;
pub mod requests;
pub mod retry;
pub mod soap;
pub mod soap_actions;
pub mod stream;
pub mod text;
