//! # Image Request Implementations
//!
//! Constructors and setters for the image request types.

use vstd::prelude::*;
use super::common::{clamp_image_count, clamped_count};
use super::requests::{ImageEditRequest, ImageGenerationRequest, ImageVariationRequest};
use super::types::{ImageQuality, ImageResponseFormat, ImageSize, ImageStyle};
use super::validation::{generation_check, validate_request};

verus! {

impl ImageGenerationRequest {
    /// Create a new image generation request
    pub fn new(model: &str, prompt: &str) -> (r: Self)
        ensures
            r.model@ == model@,
            r.prompt@ == prompt@,
            r.n is None,
            r.quality is None,
            r.response_format is None,
            r.size is None,
            r.style is None,
            r.user is None,
    {
        Self {
            model: String::from_str(model),
            prompt: String::from_str(prompt),
            n: None,
            quality: None,
            response_format: None,
            size: None,
            style: None,
            user: None,
        }
    }

    /// Set the number of images to generate, clamped to 1-10
    pub fn with_n(self, n: u32) -> (r: Self)
        ensures
            r == (Self { n: Some(clamped_count(n)), ..self }),
    {
        Self { n: Some(clamp_image_count(n)), ..self }
    }

    /// Set the image quality
    pub fn with_quality(self, quality: ImageQuality) -> (r: Self)
        ensures
            r == (Self { quality: Some(quality), ..self }),
    {
        Self { quality: Some(quality), ..self }
    }

    /// Set the response format
    pub fn with_response_format(self, format: ImageResponseFormat) -> (r: Self)
        ensures
            r == (Self { response_format: Some(format), ..self }),
    {
        Self { response_format: Some(format), ..self }
    }

    /// Set the image size
    pub fn with_size(self, size: ImageSize) -> (r: Self)
        ensures
            r == (Self { size: Some(size), ..self }),
    {
        Self { size: Some(size), ..self }
    }

    /// Set the image style
    pub fn with_style(self, style: ImageStyle) -> (r: Self)
        ensures
            r == (Self { style: Some(style), ..self }),
    {
        Self { style: Some(style), ..self }
    }

    /// Set the user identifier
    pub fn with_user(self, user: &str) -> (r: Self)
        ensures
            r == (Self { user: r.user, ..self }),
            r.user is Some && r.user.unwrap()@ == user@,
    {
        Self { user: Some(String::from_str(user)), ..self }
    }

    /// Validate the request against the rules of its model
    pub fn validate(&self) -> (r: Result<(), String>)
        ensures
            crate::text::unit_result_view(r) == generation_check(*self),
    {
        validate_request(self)
    }
}

impl ImageEditRequest {
    /// Create a new image edit request
    pub fn new(model: &str, image: &str, prompt: &str) -> (r: Self)
        ensures
            r.model@ == model@,
            r.image@ == image@,
            r.prompt@ == prompt@,
            r.mask is None,
            r.n is None,
            r.response_format is None,
            r.size is None,
            r.user is None,
    {
        Self {
            model: String::from_str(model),
            image: String::from_str(image),
            mask: None,
            prompt: String::from_str(prompt),
            n: None,
            response_format: None,
            size: None,
            user: None,
        }
    }

    /// Set the mask image
    pub fn with_mask(self, mask: &str) -> (r: Self)
        ensures
            r == (Self { mask: r.mask, ..self }),
            r.mask is Some && r.mask.unwrap()@ == mask@,
    {
        Self { mask: Some(String::from_str(mask)), ..self }
    }

    /// Set the number of images to generate, clamped to 1-10
    pub fn with_n(self, n: u32) -> (r: Self)
        ensures
            r == (Self { n: Some(clamped_count(n)), ..self }),
    {
        Self { n: Some(clamp_image_count(n)), ..self }
    }

    /// Set the response format
    pub fn with_response_format(self, format: ImageResponseFormat) -> (r: Self)
        ensures
            r == (Self { response_format: Some(format), ..self }),
    {
        Self { response_format: Some(format), ..self }
    }

    /// Set the image size
    pub fn with_size(self, size: ImageSize) -> (r: Self)
        ensures
            r == (Self { size: Some(size), ..self }),
    {
        Self { size: Some(size), ..self }
    }

    /// Set the user identifier
    pub fn with_user(self, user: &str) -> (r: Self)
        ensures
            r == (Self { user: r.user, ..self }),
            r.user is Some && r.user.unwrap()@ == user@,
    {
        Self { user: Some(String::from_str(user)), ..self }
    }
}

impl ImageVariationRequest {
    /// Create a new image variation request
    pub fn new(model: &str, image: &str) -> (r: Self)
        ensures
            r.model@ == model@,
            r.image@ == image@,
            r.n is None,
            r.response_format is None,
            r.size is None,
            r.user is None,
    {
        Self {
            model: String::from_str(model),
            image: String::from_str(image),
            n: None,
            response_format: None,
            size: None,
            user: None,
        }
    }

    /// Set the number of images to generate, clamped to 1-10
    pub fn with_n(self, n: u32) -> (r: Self)
        ensures
            r == (Self { n: Some(clamped_count(n)), ..self }),
    {
        Self { n: Some(clamp_image_count(n)), ..self }
    }

    /// Set the response format
    pub fn with_response_format(self, format: ImageResponseFormat) -> (r: Self)
        ensures
            r == (Self { response_format: Some(format), ..self }),
    {
        Self { response_format: Some(format), ..self }
    }

    /// Set the image size
    pub fn with_size(self, size: ImageSize) -> (r: Self)
        ensures
            r == (Self { size: Some(size), ..self }),
    {
        Self { size: Some(size), ..self }
    }

    /// Set the user identifier
    pub fn with_user(self, user: &str) -> (r: Self)
        ensures
            r == (Self { user: r.user, ..self }),
            r.user is Some && r.user.unwrap()@ == user@,
    {
        Self { user: Some(String::from_str(user)), ..self }
    }
}

} // verus!
