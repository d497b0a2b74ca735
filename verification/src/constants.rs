//! Constants used throughout the SDK: the API origin, header names, endpoint
//! paths and the messages and parameter names shared by the clients.

/// Common HTTP header names
pub mod headers;
/// Common API endpoints
pub mod endpoints;
/// Common error messages
pub mod error_messages;
/// Common query parameter names
pub mod query_params;
/// SDK information
pub mod sdk;

use vstd::prelude::*;

verus! {

/// Default `OpenAI` API base URL
pub const OPENAI_API_BASE_URL: &'static str = "https://api.openai.com";

/// API version path prefix
pub const API_VERSION_PREFIX: &'static str = "/v1";

/// Content type for JSON requests
pub const CONTENT_TYPE_JSON: &'static str = "application/json";

/// `OpenAI` Beta header value for assistants API
pub const OPENAI_BETA_ASSISTANTS: &'static str = "assistants=v1";

} // verus!
