//! Runs API endpoints (for cross-thread operations)

use vstd::prelude::*;

verus! {

/// Base runs endpoint for creating runs across threads
pub const BASE: &'static str = "/v1/threads/runs";

} // verus!
