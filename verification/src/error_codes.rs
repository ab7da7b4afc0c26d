//! Well-known upstream error codes.

use vstd::prelude::*;

verus! {

/// Segment sell failure, common in the sandbox environment when booking.
pub const SEGMENT_SELL_FAILURE: i32 = 34651;

/// Unable to process: the generic upstream error.
pub const UNABLE_TO_PROCESS: i32 = 141;

/// Invalid format.
pub const INVALID_FORMAT: i32 = 477;

/// Resource not found.
pub const RESOURCE_NOT_FOUND: i32 = 1797;

/// Unauthorized.
pub const UNAUTHORIZED: i32 = 38190;

/// Rate limit exceeded.
pub const RATE_LIMIT_EXCEEDED: i32 = 38194;

/// No upsell offers were found for the flight. The one business error that
/// is translated into an empty successful result rather than surfaced.
pub const NO_UPSELL_OFFERS_FOUND: i32 = 39397;

} // verus!
