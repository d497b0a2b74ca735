//! # Image API Types
//!
//! Enums for image quality, response format, size and style, and the model names.

use vstd::prelude::*;

verus! {

/// Image quality options (DALL-E 3 only)
#[derive(Debug, Clone, PartialEq, Eq, Structural)]
pub enum ImageQuality {
    /// Standard quality
    Standard,
    /// HD quality with finer details
    Hd,
}

/// Response format options
#[derive(Debug, Clone, PartialEq, Eq, Structural)]
pub enum ImageResponseFormat {
    /// URL to the generated image
    Url,
    /// Base64-encoded JSON
    B64Json,
}

/// Image size options
#[derive(Debug, Clone, PartialEq, Eq, Structural)]
pub enum ImageSize {
    /// 256x256 pixels (DALL-E 2 only)
    Size256x256,
    /// 512x512 pixels (DALL-E 2 only)
    Size512x512,
    /// 1024x1024 pixels
    Size1024x1024,
    /// 1792x1024 pixels (DALL-E 3 only)
    Size1792x1024,
    /// 1024x1792 pixels (DALL-E 3 only)
    Size1024x1792,
}

/// Image style options (DALL-E 3 only)
#[derive(Debug, Clone, PartialEq, Eq, Structural)]
pub enum ImageStyle {
    /// Vivid, hyper-real and dramatic images
    Vivid,
    /// Natural, less hyper-real images
    Natural,
}

/// Image model names
pub struct ImageModels;

impl ImageModels {
    /// DALL-E 3 model
    pub const DALL_E_3: &'static str = "dall-e-3";
    /// DALL-E 2 model
    pub const DALL_E_2: &'static str = "dall-e-2";
}

} // verus!
