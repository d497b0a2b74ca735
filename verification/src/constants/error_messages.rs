//! Common error messages

use vstd::prelude::*;

verus! {

/// Invalid API key format
pub const INVALID_API_KEY: &'static str = "Invalid API key format";

/// Request failed
pub const REQUEST_FAILED: &'static str = "Request failed";

/// Parse error
pub const PARSE_ERROR: &'static str = "Failed to parse response";

/// Timeout error
pub const TIMEOUT: &'static str = "Request timed out";

/// Authentication failed
pub const AUTH_FAILED: &'static str = "Authentication failed";

} // verus!
