//! Common HTTP header names

use vstd::prelude::*;

verus! {

/// Authorization header name
pub const AUTHORIZATION: &'static str = "Authorization";

/// Content-Type header name
pub const CONTENT_TYPE: &'static str = "Content-Type";

/// OpenAI-Beta header name
pub const OPENAI_BETA: &'static str = "OpenAI-Beta";

/// User-Agent header name
pub const USER_AGENT: &'static str = "User-Agent";

} // verus!
