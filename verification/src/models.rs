//! Data models of the API: requests, responses and their builders.

/// Administration API models
pub mod admin;
/// Assistants models
pub mod assistants;
/// Audio models
pub mod audio;
/// Setters shared by the image request types
pub mod common;
/// Builder traits shared by request types
pub mod common_builder;
/// Container models
pub mod containers;
/// Conversations models
pub mod conversations;
/// Embeddings models
pub mod embeddings;
/// Evals models
pub mod evals;
/// Files models
pub mod files;
/// Fine-tuning models
pub mod fine_tuning;
/// Function calling models
pub mod functions;
/// GPT-5 models and configuration
pub mod gpt5;
/// Images models
pub mod images;
/// Models API: model descriptions and their classification
pub mod models;
/// Conversation messages
pub mod responses;
/// Vector stores models
pub mod vector_stores;
/// Videos models
pub mod videos;
