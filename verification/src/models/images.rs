//! # Images Models
//!
//! Data structures for the OpenAI Images API including image generation,
//! editing, and variation endpoints using DALL-E models.

pub mod builders;
pub mod common;
pub mod implementations;
pub mod requests;
pub mod responses;
pub mod types;
pub mod validation;

pub use builders::{ImageEditBuilder, ImageGenerationBuilder, ImageVariationBuilder};
pub use common::{clamp_image_count, ImageRequestCommon};
pub use requests::{ImageEditRequest, ImageGenerationRequest, ImageVariationRequest};
pub use responses::{ImageData, ImageResponse};
pub use types::{ImageModels, ImageQuality, ImageResponseFormat, ImageSize, ImageStyle};
pub use validation::validate_request;
