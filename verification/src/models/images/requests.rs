//! # Image Request Types
//!
//! Request structures for image generation, editing, and variation.

use vstd::prelude::*;
use super::types::{ImageQuality, ImageResponseFormat, ImageSize, ImageStyle};

verus! {

/// Request for generating images
#[derive(Debug, Clone)]
pub struct ImageGenerationRequest {
    /// The model to use for image generation
    pub model: String,
    /// A text description of the desired image(s)
    pub prompt: String,
    /// The number of images to generate (1-10)
    pub n: Option<u32>,
    /// The quality of the image (DALL-E 3 only)
    pub quality: Option<ImageQuality>,
    /// The format in which the generated images are returned
    pub response_format: Option<ImageResponseFormat>,
    /// The size of the generated images
    pub size: Option<ImageSize>,
    /// The style of the generated images (DALL-E 3 only)
    pub style: Option<ImageStyle>,
    /// A unique identifier representing your end-user
    pub user: Option<String>,
}

/// Request for editing images
#[derive(Debug, Clone)]
pub struct ImageEditRequest {
    /// The model to use for image editing
    pub model: String,
    /// The image to edit (file path or base64)
    pub image: String,
    /// An additional image whose transparent areas indicate where to edit
    pub mask: Option<String>,
    /// A text description of the desired edits
    pub prompt: String,
    /// The number of images to generate (1-10)
    pub n: Option<u32>,
    /// The format in which the generated images are returned
    pub response_format: Option<ImageResponseFormat>,
    /// The size of the generated images
    pub size: Option<ImageSize>,
    /// A unique identifier representing your end-user
    pub user: Option<String>,
}

/// Request for creating image variations
#[derive(Debug, Clone)]
pub struct ImageVariationRequest {
    /// The model to use for creating variations
    pub model: String,
    /// The image to use as the basis for variations
    pub image: String,
    /// The number of images to generate (1-10)
    pub n: Option<u32>,
    /// The format in which the generated images are returned
    pub response_format: Option<ImageResponseFormat>,
    /// The size of the generated images
    pub size: Option<ImageSize>,
    /// A unique identifier representing your end-user
    pub user: Option<String>,
}

} // verus!
