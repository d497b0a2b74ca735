//! Verified core of an `OpenAI` API client: connection settings and request
//! headers, endpoint paths, request models with their builders and validation
//! rules, the classification of models, and the decisions made around each HTTP
//! exchange (waiting, statistics, conversations).

/// API clients and the decisions around their requests
pub mod api;
/// Builders of function definitions and the shared build step
pub mod builders;
/// The high-level client, the conversation builder and conversation state
pub mod client;
/// Constants: API origin, headers, endpoint paths, SDK information
pub mod constants;
/// The SDK's error type
pub mod error;
/// Helpers of the file operations
pub mod helpers;
/// A JSON value type and its model
pub mod json;
/// Data models of the API
pub mod models;
/// JSON Schema construction
pub mod schema;
/// Character-level string operations
pub mod text;
