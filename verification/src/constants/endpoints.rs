//! Common API endpoints

/// Assistants API endpoints
pub mod assistants;
/// Vector stores API endpoints
pub mod vector_stores;
/// Threads API endpoints
pub mod threads;
/// Runs API endpoints (for cross-thread operations)
pub mod runs;
/// Files API endpoints
pub mod files;
/// Models API endpoints
pub mod models;
/// Containers API endpoints
pub mod containers;
/// Fine-tuning API endpoints
pub mod fine_tuning;
/// Uploads API endpoints
pub mod uploads;
/// Evals API endpoints
pub mod evals;
/// Videos (Sora) API endpoints
pub mod videos;
/// Conversations API endpoints
pub mod conversations;
/// Skills API endpoints
pub mod skills;
/// Administration API endpoints
pub mod admin;
/// Batches API endpoints
pub mod batches;

use vstd::prelude::*;

verus! {

/// Chat completions endpoint
pub const CHAT_COMPLETIONS: &'static str = "/v1/chat/completions";

/// Completions endpoint
pub const COMPLETIONS: &'static str = "/v1/completions";

/// Embeddings endpoint
pub const EMBEDDINGS: &'static str = "/v1/embeddings";

/// Fine-tuning jobs endpoint
pub const FINE_TUNING_JOBS: &'static str = "/v1/fine_tuning/jobs";

/// Images generations endpoint
pub const IMAGES_GENERATIONS: &'static str = "/v1/images/generations";

/// Images edits endpoint
pub const IMAGES_EDITS: &'static str = "/v1/images/edits";

/// Images variations endpoint
pub const IMAGES_VARIATIONS: &'static str = "/v1/images/variations";

/// Audio speech endpoint
pub const AUDIO_SPEECH: &'static str = "/v1/audio/speech";

/// Audio transcriptions endpoint
pub const AUDIO_TRANSCRIPTIONS: &'static str = "/v1/audio/transcriptions";

/// Audio translations endpoint
pub const AUDIO_TRANSLATIONS: &'static str = "/v1/audio/translations";

/// Moderations endpoint
pub const MODERATIONS: &'static str = "/v1/moderations";

/// Batch jobs endpoint
pub const BATCHES: &'static str = "/v1/batches";

} // verus!
