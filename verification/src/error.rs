//! Error types for the `OpenAI` SDK

use vstd::prelude::*;

verus! {

/// The HTTP client's error, carried through unchanged
#[verifier::external_type_specification]
#[verifier::external_body]
pub struct ExReqwestError(reqwest::Error);

/// The JSON codec's error, carried through unchanged
#[verifier::external_type_specification]
#[verifier::external_body]
pub struct ExSerdeJsonError(serde_json::Error);

/// Main error type for the `OpenAI` SDK
#[derive(Debug)]
pub enum OpenAIError {
    /// HTTP request failed
    Request(reqwest::Error),
    /// JSON serialization/deserialization failed
    Json(serde_json::Error),
    /// API returned an error response
    Api {
        /// HTTP status code
        status_code: u16,
        /// Error message from the API
        message: String,
    },
    /// Authentication failed
    Authentication(String),
    /// Error in a streaming response
    Streaming(String),
    /// The request was invalid
    InvalidRequest(String),
    /// A timeout occurred
    Timeout(String),
    /// File operation failed
    FileError(String),
    /// The request could not be made
    RequestError(String),
    /// A response could not be parsed
    ParseError(String),
    /// API error with a status code
    ApiError {
        /// HTTP status code
        status: u16,
        /// Error message
        message: String,
    },
    /// Any other error
    Unknown(String),
}

/// Result type alias for `OpenAI` SDK operations
pub type Result<T> = core::result::Result<T, OpenAIError>;

/// Error response body returned by the API
#[derive(Debug)]
pub struct ApiErrorResponse {
    /// The error details
    pub error: ApiError,
}

/// Details of an API error
#[derive(Debug)]
pub struct ApiError {
    /// Error message
    pub message: String,
    /// Error type
    pub error_type: Option<String>,
    /// Error code
    pub code: Option<String>,
}

impl From<String> for OpenAIError {
    fn from(message: String) -> (r: Self) {
        OpenAIError::InvalidRequest(message)
    }
}

impl vstd::std_specs::convert::FromSpecImpl<String> for OpenAIError {
    open spec fn obeys_from_spec() -> bool {
        true
    }

    open spec fn from_spec(message: String) -> Self {
        OpenAIError::InvalidRequest(message)
    }
}

impl From<reqwest::Error> for OpenAIError {
    fn from(e: reqwest::Error) -> (r: Self) {
        OpenAIError::Request(e)
    }
}

impl vstd::std_specs::convert::FromSpecImpl<reqwest::Error> for OpenAIError {
    open spec fn obeys_from_spec() -> bool {
        true
    }

    open spec fn from_spec(e: reqwest::Error) -> Self {
        OpenAIError::Request(e)
    }
}

impl From<serde_json::Error> for OpenAIError {
    fn from(e: serde_json::Error) -> (r: Self) {
        OpenAIError::Json(e)
    }
}

impl vstd::std_specs::convert::FromSpecImpl<serde_json::Error> for OpenAIError {
    open spec fn obeys_from_spec() -> bool {
        true
    }

    open spec fn from_spec(e: serde_json::Error) -> Self {
        OpenAIError::Json(e)
    }
}

impl OpenAIError {
    /// Create an API error from a status code and an error response body
    pub fn from_api_response(status_code: u16, error_response: ApiErrorResponse) -> (r: Self)
        ensures
            r == (OpenAIError::Api { status_code, message: error_response.error.message }),
    {
        OpenAIError::Api { status_code, message: error_response.error.message }
    }

    /// Create an authentication error
    pub fn authentication(message: &str) -> (r: Self)
        ensures
            r is Authentication && r->Authentication_0@ == message@,
    {
        OpenAIError::Authentication(message.to_string())
    }

    /// Create a streaming error
    pub fn streaming(message: &str) -> (r: Self)
        ensures
            r is Streaming && r->Streaming_0@ == message@,
    {
        OpenAIError::Streaming(message.to_string())
    }

    /// Create an invalid request error
    pub fn invalid_request(message: &str) -> (r: Self)
        ensures
            r is InvalidRequest && r->InvalidRequest_0@ == message@,
    {
        OpenAIError::InvalidRequest(message.to_string())
    }

    /// Create a validation error (reported as an invalid request)
    pub fn validation(message: &str) -> (r: Self)
        ensures
            r is InvalidRequest && r->InvalidRequest_0@ == message@,
    {
        OpenAIError::InvalidRequest(message.to_string())
    }

    /// Create a network error (reported as an unknown error)
    pub fn network(message: &str) -> (r: Self)
        ensures
            r is Unknown && r->Unknown_0@ == message@,
    {
        OpenAIError::Unknown(message.to_string())
    }

    /// Create a parsing error (reported as an invalid request)
    pub fn parsing(message: &str) -> (r: Self)
        ensures
            r is InvalidRequest && r->InvalidRequest_0@ == message@,
    {
        OpenAIError::InvalidRequest(message.to_string())
    }

    /// Create an API error from a status code and a message
    pub fn api_error(status_code: u16, message: &str) -> (r: Self)
        ensures
            r matches OpenAIError::Api { status_code: s, message: m } && s == status_code && m@
                == message@,
    {
        OpenAIError::Api { status_code, message: message.to_string() }
    }
}

} // verus!
