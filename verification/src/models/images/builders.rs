//! # Image Request Builders
//!
//! Builder patterns for creating image generation, editing, and variation requests
//! with fluent APIs and method chaining.

use vstd::prelude::*;
use super::common::{clamp_image_count, clamped_count};
use super::requests::{ImageEditRequest, ImageGenerationRequest, ImageVariationRequest};
use super::types::{ImageModels, ImageQuality, ImageResponseFormat, ImageSize, ImageStyle};
use crate::models::common_builder::{Builder, WithFormat, WithN, WithQuality, WithSize, WithUser};

verus! {

/// Builder for image generation requests
pub struct ImageGenerationBuilder {
    request: ImageGenerationRequest,
}

impl ImageGenerationBuilder {
    /// The request built so far.
    pub closed spec fn request_spec(&self) -> ImageGenerationRequest {
        self.request
    }

    /// Create a new image generation builder
    pub fn new(model: &str, prompt: &str) -> (r: Self)
        ensures
            r.request_spec().model@ == model@,
            r.request_spec().prompt@ == prompt@,
            r.request_spec().n is None,
            r.request_spec().quality is None,
            r.request_spec().response_format is None,
            r.request_spec().size is None,
            r.request_spec().style is None,
            r.request_spec().user is None,
    {
        Self { request: ImageGenerationRequest::new(model, prompt) }
    }

    /// Create a builder for DALL-E 3
    pub fn dall_e_3(prompt: &str) -> (r: Self)
        ensures
            r.request_spec().model@ == ImageModels::DALL_E_3@,
            r.request_spec().prompt@ == prompt@,
            r.request_spec().n is None,
            r.request_spec().quality is None,
            r.request_spec().response_format is None,
            r.request_spec().size is None,
            r.request_spec().style is None,
            r.request_spec().user is None,
    {
        Self::new(ImageModels::DALL_E_3, prompt)
    }

    /// Create a builder for DALL-E 2
    pub fn dall_e_2(prompt: &str) -> (r: Self)
        ensures
            r.request_spec().model@ == ImageModels::DALL_E_2@,
            r.request_spec().prompt@ == prompt@,
            r.request_spec().n is None,
            r.request_spec().quality is None,
            r.request_spec().response_format is None,
            r.request_spec().size is None,
            r.request_spec().style is None,
            r.request_spec().user is None,
    {
        Self::new(ImageModels::DALL_E_2, prompt)
    }

    /// Set the number of images, clamped to 1-10
    pub fn n(self, n: u32) -> (r: Self)
        ensures
            r.request_spec() == (ImageGenerationRequest { n: Some(clamped_count(n)), ..self.request_spec() }),
    {
        let mut req = self.request;
        req.n = Some(clamp_image_count(n));
        Self { request: req }
    }

    /// Return images as URLs
    pub fn url_format(self) -> (r: Self)
        ensures
            r.request_spec() == (ImageGenerationRequest { response_format: Some(ImageResponseFormat::Url), ..self.request_spec() }),
    {
        let mut req = self.request;
        req.response_format = Some(ImageResponseFormat::Url);
        Self { request: req }
    }

    /// Return images as base64 JSON
    pub fn b64_json_format(self) -> (r: Self)
        ensures
            r.request_spec() == (ImageGenerationRequest { response_format: Some(ImageResponseFormat::B64Json), ..self.request_spec() }),
    {
        let mut req = self.request;
        req.response_format = Some(ImageResponseFormat::B64Json);
        Self { request: req }
    }

    /// Set the response format
    pub fn format(self, format: ImageResponseFormat) -> (r: Self)
        ensures
            r.request_spec() == (ImageGenerationRequest { response_format: Some(format), ..self.request_spec() }),
    {
        let mut req = self.request;
        req.response_format = Some(format);
        Self { request: req }
    }

    /// Set the size to 256x256
    pub fn size_256x256(self) -> (r: Self)
        ensures
            r.request_spec() == (ImageGenerationRequest { size: Some(ImageSize::Size256x256), ..self.request_spec() }),
    {
        let mut req = self.request;
        req.size = Some(ImageSize::Size256x256);
        Self { request: req }
    }

    /// Set the size to 512x512
    pub fn size_512x512(self) -> (r: Self)
        ensures
            r.request_spec() == (ImageGenerationRequest { size: Some(ImageSize::Size512x512), ..self.request_spec() }),
    {
        let mut req = self.request;
        req.size = Some(ImageSize::Size512x512);
        Self { request: req }
    }

    /// Set the size to 1024x1024
    pub fn size_1024x1024(self) -> (r: Self)
        ensures
            r.request_spec() == (ImageGenerationRequest { size: Some(ImageSize::Size1024x1024), ..self.request_spec() }),
    {
        let mut req = self.request;
        req.size = Some(ImageSize::Size1024x1024);
        Self { request: req }
    }

    /// Set the size to 1792x1024
    pub fn size_1792x1024(self) -> (r: Self)
        ensures
            r.request_spec() == (ImageGenerationRequest { size: Some(ImageSize::Size1792x1024), ..self.request_spec() }),
    {
        let mut req = self.request;
        req.size = Some(ImageSize::Size1792x1024);
        Self { request: req }
    }

    /// Set the size to 1024x1792
    pub fn size_1024x1792(self) -> (r: Self)
        ensures
            r.request_spec() == (ImageGenerationRequest { size: Some(ImageSize::Size1024x1792), ..self.request_spec() }),
    {
        let mut req = self.request;
        req.size = Some(ImageSize::Size1024x1792);
        Self { request: req }
    }

    /// Set the image size
    pub fn size(self, size: ImageSize) -> (r: Self)
        ensures
            r.request_spec() == (ImageGenerationRequest { size: Some(size), ..self.request_spec() }),
    {
        let mut req = self.request;
        req.size = Some(size);
        Self { request: req }
    }

    /// Set the user identifier
    pub fn user(self, user: &str) -> (r: Self)
        ensures
            r.request_spec() == (ImageGenerationRequest { user: r.request_spec().user, ..self.request_spec() }),
            r.request_spec().user is Some && r.request_spec().user.unwrap()@ == user@,
    {
        let mut req = self.request;
        req.user = Some(String::from_str(user));
        Self { request: req }
    }

    /// Use standard quality
    pub fn standard_quality(self) -> (r: Self)
        ensures
            r.request_spec() == (ImageGenerationRequest { quality: Some(ImageQuality::Standard), ..self.request_spec() }),
    {
        let mut req = self.request;
        req.quality = Some(ImageQuality::Standard);
        Self { request: req }
    }

    /// Use HD quality
    pub fn hd_quality(self) -> (r: Self)
        ensures
            r.request_spec() == (ImageGenerationRequest { quality: Some(ImageQuality::Hd), ..self.request_spec() }),
    {
        let mut req = self.request;
        req.quality = Some(ImageQuality::Hd);
        Self { request: req }
    }

    /// Set the image quality
    pub fn quality(self, quality: ImageQuality) -> (r: Self)
        ensures
            r.request_spec() == (ImageGenerationRequest { quality: Some(quality), ..self.request_spec() }),
    {
        let mut req = self.request;
        req.quality = Some(quality);
        Self { request: req }
    }

    /// Use the vivid style
    pub fn vivid_style(self) -> (r: Self)
        ensures
            r.request_spec() == (ImageGenerationRequest { style: Some(ImageStyle::Vivid), ..self.request_spec() }),
    {
        let mut req = self.request;
        req.style = Some(ImageStyle::Vivid);
        Self { request: req }
    }

    /// Use the natural style
    pub fn natural_style(self) -> (r: Self)
        ensures
            r.request_spec() == (ImageGenerationRequest { style: Some(ImageStyle::Natural), ..self.request_spec() }),
    {
        let mut req = self.request;
        req.style = Some(ImageStyle::Natural);
        Self { request: req }
    }

    /// Build the request
    pub fn build(self) -> (r: ImageGenerationRequest)
        ensures
            r == self.request_spec(),
    {
        self.request
    }
}

/// Builder for image edit requests
pub struct ImageEditBuilder {
    request: ImageEditRequest,
}

impl ImageEditBuilder {
    /// The request built so far.
    pub closed spec fn request_spec(&self) -> ImageEditRequest {
        self.request
    }

    /// Create a new image edit builder
    pub fn new(model: &str, image: &str, prompt: &str) -> (r: Self)
        ensures
            r.request_spec().model@ == model@,
            r.request_spec().image@ == image@,
            r.request_spec().prompt@ == prompt@,
            r.request_spec().mask is None,
            r.request_spec().n is None,
            r.request_spec().response_format is None,
            r.request_spec().size is None,
            r.request_spec().user is None,
    {
        Self { request: ImageEditRequest::new(model, image, prompt) }
    }

    /// Create a builder for DALL-E 2
    pub fn dall_e_2(image: &str, prompt: &str) -> (r: Self)
        ensures
            r.request_spec().model@ == ImageModels::DALL_E_2@,
            r.request_spec().image@ == image@,
            r.request_spec().prompt@ == prompt@,
            r.request_spec().mask is None,
            r.request_spec().n is None,
            r.request_spec().response_format is None,
            r.request_spec().size is None,
            r.request_spec().user is None,
    {
        Self::new(ImageModels::DALL_E_2, image, prompt)
    }

    /// Set the mask image
    pub fn mask(self, mask: &str) -> (r: Self)
        ensures
            r.request_spec() == (ImageEditRequest { mask: r.request_spec().mask, ..self.request_spec() }),
            r.request_spec().mask is Some && r.request_spec().mask.unwrap()@ == mask@,
    {
        let mut req = self.request;
        req.mask = Some(String::from_str(mask));
        Self { request: req }
    }

    /// Set the number of images, clamped to 1-10
    pub fn n(self, n: u32) -> (r: Self)
        ensures
            r.request_spec() == (ImageEditRequest { n: Some(clamped_count(n)), ..self.request_spec() }),
    {
        let mut req = self.request;
        req.n = Some(clamp_image_count(n));
        Self { request: req }
    }

    /// Return images as URLs
    pub fn url_format(self) -> (r: Self)
        ensures
            r.request_spec() == (ImageEditRequest { response_format: Some(ImageResponseFormat::Url), ..self.request_spec() }),
    {
        let mut req = self.request;
        req.response_format = Some(ImageResponseFormat::Url);
        Self { request: req }
    }

    /// Return images as base64 JSON
    pub fn b64_json_format(self) -> (r: Self)
        ensures
            r.request_spec() == (ImageEditRequest { response_format: Some(ImageResponseFormat::B64Json), ..self.request_spec() }),
    {
        let mut req = self.request;
        req.response_format = Some(ImageResponseFormat::B64Json);
        Self { request: req }
    }

    /// Set the response format
    pub fn format(self, format: ImageResponseFormat) -> (r: Self)
        ensures
            r.request_spec() == (ImageEditRequest { response_format: Some(format), ..self.request_spec() }),
    {
        let mut req = self.request;
        req.response_format = Some(format);
        Self { request: req }
    }

    /// Set the image size
    pub fn size(self, size: ImageSize) -> (r: Self)
        ensures
            r.request_spec() == (ImageEditRequest { size: Some(size), ..self.request_spec() }),
    {
        let mut req = self.request;
        req.size = Some(size);
        Self { request: req }
    }

    /// Set the user identifier
    pub fn user(self, user: &str) -> (r: Self)
        ensures
            r.request_spec() == (ImageEditRequest { user: r.request_spec().user, ..self.request_spec() }),
            r.request_spec().user is Some && r.request_spec().user.unwrap()@ == user@,
    {
        let mut req = self.request;
        req.user = Some(String::from_str(user));
        Self { request: req }
    }

    /// Build the request
    pub fn build(self) -> (r: ImageEditRequest)
        ensures
            r == self.request_spec(),
    {
        self.request
    }
}

/// Builder for image variation requests
pub struct ImageVariationBuilder {
    request: ImageVariationRequest,
}

impl ImageVariationBuilder {
    /// The request built so far.
    pub closed spec fn request_spec(&self) -> ImageVariationRequest {
        self.request
    }

    /// Create a new image variation builder
    pub fn new(model: &str, image: &str) -> (r: Self)
        ensures
            r.request_spec().model@ == model@,
            r.request_spec().image@ == image@,
            r.request_spec().n is None,
            r.request_spec().response_format is None,
            r.request_spec().size is None,
            r.request_spec().user is None,
    {
        Self { request: ImageVariationRequest::new(model, image) }
    }

    /// Create a builder for DALL-E 2
    pub fn dall_e_2(image: &str) -> (r: Self)
        ensures
            r.request_spec().model@ == ImageModels::DALL_E_2@,
            r.request_spec().image@ == image@,
            r.request_spec().n is None,
            r.request_spec().response_format is None,
            r.request_spec().size is None,
            r.request_spec().user is None,
    {
        Self::new(ImageModels::DALL_E_2, image)
    }

    /// Set the number of images, clamped to 1-10
    pub fn n(self, n: u32) -> (r: Self)
        ensures
            r.request_spec() == (ImageVariationRequest { n: Some(clamped_count(n)), ..self.request_spec() }),
    {
        let mut req = self.request;
        req.n = Some(clamp_image_count(n));
        Self { request: req }
    }

    /// Return images as URLs
    pub fn url_format(self) -> (r: Self)
        ensures
            r.request_spec() == (ImageVariationRequest { response_format: Some(ImageResponseFormat::Url), ..self.request_spec() }),
    {
        let mut req = self.request;
        req.response_format = Some(ImageResponseFormat::Url);
        Self { request: req }
    }

    /// Return images as base64 JSON
    pub fn b64_json_format(self) -> (r: Self)
        ensures
            r.request_spec() == (ImageVariationRequest { response_format: Some(ImageResponseFormat::B64Json), ..self.request_spec() }),
    {
        let mut req = self.request;
        req.response_format = Some(ImageResponseFormat::B64Json);
        Self { request: req }
    }

    /// Set the response format
    pub fn format(self, format: ImageResponseFormat) -> (r: Self)
        ensures
            r.request_spec() == (ImageVariationRequest { response_format: Some(format), ..self.request_spec() }),
    {
        let mut req = self.request;
        req.response_format = Some(format);
        Self { request: req }
    }

    /// Set the image size
    pub fn size(self, size: ImageSize) -> (r: Self)
        ensures
            r.request_spec() == (ImageVariationRequest { size: Some(size), ..self.request_spec() }),
    {
        let mut req = self.request;
        req.size = Some(size);
        Self { request: req }
    }

    /// Set the user identifier
    pub fn user(self, user: &str) -> (r: Self)
        ensures
            r.request_spec() == (ImageVariationRequest { user: r.request_spec().user, ..self.request_spec() }),
            r.request_spec().user is Some && r.request_spec().user.unwrap()@ == user@,
    {
        let mut req = self.request;
        req.user = Some(String::from_str(user));
        Self { request: req }
    }

    /// Build the request
    pub fn build(self) -> (r: ImageVariationRequest)
        ensures
            r == self.request_spec(),
    {
        self.request
    }
}

impl Builder<ImageGenerationRequest> for ImageGenerationBuilder {
    fn build(self) -> (r: ImageGenerationRequest)
        ensures
            r == self.request_spec(),
    {
        ImageGenerationBuilder::build(self)
    }
}

impl WithN<ImageGenerationRequest> for ImageGenerationBuilder {
    fn n(self, n: u32) -> (r: Self)
        ensures
            r.request_spec() == (ImageGenerationRequest { n: Some(clamped_count(n)), ..self.request_spec() }),
    {
        ImageGenerationBuilder::n(self, n)
    }
}

impl WithFormat<ImageGenerationRequest, ImageResponseFormat> for ImageGenerationBuilder {
    fn format(self, format: ImageResponseFormat) -> (r: Self)
        ensures
            r.request_spec() == (ImageGenerationRequest { response_format: Some(format), ..self.request_spec() }),
    {
        ImageGenerationBuilder::format(self, format)
    }
}

impl WithSize<ImageGenerationRequest, ImageSize> for ImageGenerationBuilder {
    fn size(self, size: ImageSize) -> (r: Self)
        ensures
            r.request_spec() == (ImageGenerationRequest { size: Some(size), ..self.request_spec() }),
    {
        ImageGenerationBuilder::size(self, size)
    }
}

impl WithUser<ImageGenerationRequest> for ImageGenerationBuilder {
    fn user(self, user: &str) -> (r: Self)
        ensures
            r.request_spec() == (ImageGenerationRequest { user: r.request_spec().user, ..self.request_spec() }),
            r.request_spec().user is Some && r.request_spec().user.unwrap()@ == user@,
    {
        ImageGenerationBuilder::user(self, user)
    }
}

impl WithQuality<ImageGenerationRequest, ImageQuality> for ImageGenerationBuilder {
    fn quality(self, quality: ImageQuality) -> (r: Self)
        ensures
            r.request_spec() == (ImageGenerationRequest { quality: Some(quality), ..self.request_spec() }),
    {
        ImageGenerationBuilder::quality(self, quality)
    }
}

impl Builder<ImageEditRequest> for ImageEditBuilder {
    fn build(self) -> (r: ImageEditRequest)
        ensures
            r == self.request_spec(),
    {
        ImageEditBuilder::build(self)
    }
}

impl WithN<ImageEditRequest> for ImageEditBuilder {
    fn n(self, n: u32) -> (r: Self)
        ensures
            r.request_spec() == (ImageEditRequest { n: Some(clamped_count(n)), ..self.request_spec() }),
    {
        ImageEditBuilder::n(self, n)
    }
}

impl WithFormat<ImageEditRequest, ImageResponseFormat> for ImageEditBuilder {
    fn format(self, format: ImageResponseFormat) -> (r: Self)
        ensures
            r.request_spec() == (ImageEditRequest { response_format: Some(format), ..self.request_spec() }),
    {
        ImageEditBuilder::format(self, format)
    }
}

impl WithSize<ImageEditRequest, ImageSize> for ImageEditBuilder {
    fn size(self, size: ImageSize) -> (r: Self)
        ensures
            r.request_spec() == (ImageEditRequest { size: Some(size), ..self.request_spec() }),
    {
        ImageEditBuilder::size(self, size)
    }
}

impl WithUser<ImageEditRequest> for ImageEditBuilder {
    fn user(self, user: &str) -> (r: Self)
        ensures
            r.request_spec() == (ImageEditRequest { user: r.request_spec().user, ..self.request_spec() }),
            r.request_spec().user is Some && r.request_spec().user.unwrap()@ == user@,
    {
        ImageEditBuilder::user(self, user)
    }
}

impl Builder<ImageVariationRequest> for ImageVariationBuilder {
    fn build(self) -> (r: ImageVariationRequest)
        ensures
            r == self.request_spec(),
    {
        ImageVariationBuilder::build(self)
    }
}

impl WithN<ImageVariationRequest> for ImageVariationBuilder {
    fn n(self, n: u32) -> (r: Self)
        ensures
            r.request_spec() == (ImageVariationRequest { n: Some(clamped_count(n)), ..self.request_spec() }),
    {
        ImageVariationBuilder::n(self, n)
    }
}

impl WithFormat<ImageVariationRequest, ImageResponseFormat> for ImageVariationBuilder {
    fn format(self, format: ImageResponseFormat) -> (r: Self)
        ensures
            r.request_spec() == (ImageVariationRequest { response_format: Some(format), ..self.request_spec() }),
    {
        ImageVariationBuilder::format(self, format)
    }
}

impl WithSize<ImageVariationRequest, ImageSize> for ImageVariationBuilder {
    fn size(self, size: ImageSize) -> (r: Self)
        ensures
            r.request_spec() == (ImageVariationRequest { size: Some(size), ..self.request_spec() }),
    {
        ImageVariationBuilder::size(self, size)
    }
}

impl WithUser<ImageVariationRequest> for ImageVariationBuilder {
    fn user(self, user: &str) -> (r: Self)
        ensures
            r.request_spec() == (ImageVariationRequest { user: r.request_spec().user, ..self.request_spec() }),
            r.request_spec().user is Some && r.request_spec().user.unwrap()@ == user@,
    {
        ImageVariationBuilder::user(self, user)
    }
}

} // verus!
