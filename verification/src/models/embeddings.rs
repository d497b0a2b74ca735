//! # Embeddings Models
//!
//! Requests to the `OpenAI` Embeddings API and their builder

use vstd::prelude::*;

verus! {

broadcast use vstd::string::group_string_axioms;

/// What to embed
#[derive(Debug, Clone)]
pub enum EmbeddingInput {
    /// One text
    String(String),
    /// Several texts
    StringArray(Vec<String>),
    /// Several token sequences
    TokenArray(Vec<Vec<u32>>),
}

/// The encoding of returned embeddings
#[derive(Debug, Clone, Copy, PartialEq, Eq, Structural)]
pub enum EncodingFormat {
    /// Lists of floats
    Float,
    /// Base64 text
    Base64,
}

/// A request for embeddings
#[derive(Debug, Clone)]
pub struct EmbeddingRequest {
    /// What to embed
    pub input: EmbeddingInput,
    /// The model to use
    pub model: String,
    /// Number of dimensions of the embeddings
    pub dimensions: Option<u32>,
    /// Encoding of the embeddings
    pub encoding_format: Option<EncodingFormat>,
    /// End-user identifier
    pub user: Option<String>,
}

/// Token counts of an embeddings request
#[derive(Debug, Clone, Copy)]
pub struct EmbeddingUsage {
    /// Tokens in the input
    pub prompt_tokens: u32,
    /// Tokens in total
    pub total_tokens: u32,
}

impl EmbeddingRequest {
    /// Embed one text
    pub fn new(model: &str, input: &str) -> (r: Self)
        ensures
            r.model@ == model@,
            r.input matches EmbeddingInput::String(s) && s@ == input@,
            r.dimensions is None,
            r.encoding_format is None,
            r.user is None,
    {
        EmbeddingRequest {
            input: EmbeddingInput::String(input.to_string()),
            model: model.to_string(),
            dimensions: None,
            encoding_format: None,
            user: None,
        }
    }

    /// Embed several texts
    pub fn new_batch(model: &str, inputs: Vec<String>) -> (r: Self)
        ensures
            r.model@ == model@,
            r.input == EmbeddingInput::StringArray(inputs),
            r.dimensions is None,
            r.encoding_format is None,
            r.user is None,
    {
        EmbeddingRequest {
            input: EmbeddingInput::StringArray(inputs),
            model: model.to_string(),
            dimensions: None,
            encoding_format: None,
            user: None,
        }
    }

    /// Embed several token sequences
    pub fn new_tokens(model: &str, tokens: Vec<Vec<u32>>) -> (r: Self)
        ensures
            r.model@ == model@,
            r.input == EmbeddingInput::TokenArray(tokens),
            r.dimensions is None,
            r.encoding_format is None,
            r.user is None,
    {
        EmbeddingRequest {
            input: EmbeddingInput::TokenArray(tokens),
            model: model.to_string(),
            dimensions: None,
            encoding_format: None,
            user: None,
        }
    }

    /// Set the number of dimensions
    pub fn with_dimensions(self, dimensions: u32) -> (r: Self)
        ensures
            r == (EmbeddingRequest { dimensions: Some(dimensions), ..self }),
    {
        EmbeddingRequest { dimensions: Some(dimensions), ..self }
    }

    /// Set the encoding format
    pub fn with_encoding_format(self, format: EncodingFormat) -> (r: Self)
        ensures
            r == (EmbeddingRequest { encoding_format: Some(format), ..self }),
    {
        EmbeddingRequest { encoding_format: Some(format), ..self }
    }

    /// Set the end-user identifier
    pub fn with_user(self, user: &str) -> (r: Self)
        ensures
            r == (EmbeddingRequest { user: r.user, ..self }),
            r.user is Some && r.user.unwrap()@ == user@,
    {
        EmbeddingRequest { user: Some(user.to_string()), ..self }
    }
}

/// Names of the embedding models
pub struct EmbeddingModels;

impl EmbeddingModels {
    /// Ada v2
    pub const ADA_002: &'static str = "text-embedding-ada-002";
    /// Embedding v3, small
    pub const EMBEDDING_3_SMALL: &'static str = "text-embedding-3-small";
    /// Embedding v3, large
    pub const EMBEDDING_3_LARGE: &'static str = "text-embedding-3-large";
}

/// Builder for embedding requests
#[derive(Debug, Clone)]
pub struct EmbeddingBuilder {
    request: EmbeddingRequest,
}

impl View for EmbeddingBuilder {
    type V = EmbeddingRequest;

    closed spec fn view(&self) -> EmbeddingRequest {
        self.request
    }
}

impl EmbeddingBuilder {
    /// Start a request that embeds one text
    pub fn new(model: &str, input: &str) -> (r: Self)
        ensures
            r@.model@ == model@,
            r@.input matches EmbeddingInput::String(s) && s@ == input@,
            r@.dimensions is None,
            r@.encoding_format is None,
            r@.user is None,
    {
        EmbeddingBuilder { request: EmbeddingRequest::new(model, input) }
    }

    /// Start a request that embeds several texts
    pub fn new_batch(model: &str, inputs: Vec<String>) -> (r: Self)
        ensures
            r@.model@ == model@,
            r@.input == EmbeddingInput::StringArray(inputs),
            r@.dimensions is None,
            r@.encoding_format is None,
            r@.user is None,
    {
        EmbeddingBuilder { request: EmbeddingRequest::new_batch(model, inputs) }
    }

    /// Set the number of dimensions
    pub fn dimensions(self, dims: u32) -> (r: Self)
        ensures
            r@ == (EmbeddingRequest { dimensions: Some(dims), ..self@ }),
    {
        EmbeddingBuilder { request: self.request.with_dimensions(dims) }
    }

    /// Ask for embeddings as floats
    pub fn float_format(self) -> (r: Self)
        ensures
            r@ == (EmbeddingRequest { encoding_format: Some(EncodingFormat::Float), ..self@ }),
    {
        EmbeddingBuilder { request: self.request.with_encoding_format(EncodingFormat::Float) }
    }

    /// Ask for embeddings as base64 text
    pub fn base64_format(self) -> (r: Self)
        ensures
            r@ == (EmbeddingRequest { encoding_format: Some(EncodingFormat::Base64), ..self@ }),
    {
        EmbeddingBuilder { request: self.request.with_encoding_format(EncodingFormat::Base64) }
    }

    /// Set the end-user identifier
    pub fn user(self, user: &str) -> (r: Self)
        ensures
            r@ == (EmbeddingRequest { user: r@.user, ..self@ }),
            r@.user is Some && r@.user.unwrap()@ == user@,
    {
        EmbeddingBuilder { request: self.request.with_user(user) }
    }

    /// The request built
    pub fn build(self) -> (r: EmbeddingRequest)
        ensures
            r == self@,
    {
        self.request
    }
}

} // verus!
