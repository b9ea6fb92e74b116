//! Feature flags negotiated via `enable_features`. Bitwise-ORed together.

use vstd::prelude::*;

verus! {

/// Buffer the request body so it can be read in full (and re-read).
pub const BUFFER_REQUEST: i32 = 1;

/// Buffer the response body so it can be inspected in `handle_response`.
pub const BUFFER_RESPONSE: i32 = 2;

/// Expose request/response trailers.
pub const TRAILERS: i32 = 4;

} // verus!
