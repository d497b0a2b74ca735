//! # Common Builder Traits
//!
//! Setters shared by the image request types, written once over mutable access
//! to the four fields they have in common.

use vstd::prelude::*;
use crate::models::images::common::{clamp_image_count, clamped_count};
use crate::models::images::requests::{ImageEditRequest, ImageGenerationRequest, ImageVariationRequest};
use crate::models::images::types::{ImageResponseFormat, ImageSize};

verus! {

/// Common builder methods for image generation requests
pub trait ImageRequestBuilder: Sized {
    /// The request with its image count replaced by `n`
    spec fn n_replaced(&self, n: Option<u32>) -> Self;

    /// The request with its response format replaced by `format`
    spec fn response_format_replaced(&self, format: Option<ImageResponseFormat>) -> Self;

    /// The request with its size replaced by `size`
    spec fn size_replaced(&self, size: Option<ImageSize>) -> Self;

    /// The request with its user identifier replaced by `user`
    spec fn user_replaced(&self, user: Option<String>) -> Self;

    /// Mutable access to the image count
    fn get_n_mut(&mut self) -> (r: &mut Option<u32>)
        ensures
            *final(self) == old(self).n_replaced(*final(r)),
    ;

    /// Mutable access to the response format
    fn get_response_format_mut(&mut self) -> (r: &mut Option<ImageResponseFormat>)
        ensures
            *final(self) == old(self).response_format_replaced(*final(r)),
    ;

    /// Mutable access to the image size
    fn get_size_mut(&mut self) -> (r: &mut Option<ImageSize>)
        ensures
            *final(self) == old(self).size_replaced(*final(r)),
    ;

    /// Mutable access to the user identifier
    fn get_user_mut(&mut self) -> (r: &mut Option<String>)
        ensures
            *final(self) == old(self).user_replaced(*final(r)),
    ;

    /// Set the number of images to generate, clamped to 1-10
    fn with_n(self, n: u32) -> (r: Self)
        ensures
            r == self.n_replaced(Some(clamped_count(n))),
    {
        let mut req = self;
        *req.get_n_mut() = Some(clamp_image_count(n));
        req
    }

    /// Set the response format
    fn with_response_format(self, format: ImageResponseFormat) -> (r: Self)
        ensures
            r == self.response_format_replaced(Some(format)),
    {
        let mut req = self;
        *req.get_response_format_mut() = Some(format);
        req
    }

    /// Set the image size
    fn with_size(self, size: ImageSize) -> (r: Self)
        ensures
            r == self.size_replaced(Some(size)),
    {
        let mut req = self;
        *req.get_size_mut() = Some(size);
        req
    }

    /// Set the user identifier
    fn with_user(self, user: &str) -> (r: Self)
        ensures
            exists|u: String| u@ == user@ && r == self.user_replaced(Some(u)),
    {
        let u = String::from_str(user);
        let ghost gu = u;
        let mut req = self;
        *req.get_user_mut() = Some(u);
        assert(gu@ == user@ && req == self.user_replaced(Some(gu)));
        req
    }
}

impl ImageRequestBuilder for ImageGenerationRequest {
    open spec fn n_replaced(&self, n: Option<u32>) -> Self {
        ImageGenerationRequest { n, ..*self }
    }

    open spec fn response_format_replaced(&self, format: Option<ImageResponseFormat>) -> Self {
        ImageGenerationRequest { response_format: format, ..*self }
    }

    open spec fn size_replaced(&self, size: Option<ImageSize>) -> Self {
        ImageGenerationRequest { size, ..*self }
    }

    open spec fn user_replaced(&self, user: Option<String>) -> Self {
        ImageGenerationRequest { user, ..*self }
    }

    fn get_n_mut(&mut self) -> (r: &mut Option<u32>) {
        &mut self.n
    }

    fn get_response_format_mut(&mut self) -> (r: &mut Option<ImageResponseFormat>) {
        &mut self.response_format
    }

    fn get_size_mut(&mut self) -> (r: &mut Option<ImageSize>) {
        &mut self.size
    }

    fn get_user_mut(&mut self) -> (r: &mut Option<String>) {
        &mut self.user
    }
}

impl ImageRequestBuilder for ImageEditRequest {
    open spec fn n_replaced(&self, n: Option<u32>) -> Self {
        ImageEditRequest { n, ..*self }
    }

    open spec fn response_format_replaced(&self, format: Option<ImageResponseFormat>) -> Self {
        ImageEditRequest { response_format: format, ..*self }
    }

    open spec fn size_replaced(&self, size: Option<ImageSize>) -> Self {
        ImageEditRequest { size, ..*self }
    }

    open spec fn user_replaced(&self, user: Option<String>) -> Self {
        ImageEditRequest { user, ..*self }
    }

    fn get_n_mut(&mut self) -> (r: &mut Option<u32>) {
        &mut self.n
    }

    fn get_response_format_mut(&mut self) -> (r: &mut Option<ImageResponseFormat>) {
        &mut self.response_format
    }

    fn get_size_mut(&mut self) -> (r: &mut Option<ImageSize>) {
        &mut self.size
    }

    fn get_user_mut(&mut self) -> (r: &mut Option<String>) {
        &mut self.user
    }
}

impl ImageRequestBuilder for ImageVariationRequest {
    open spec fn n_replaced(&self, n: Option<u32>) -> Self {
        ImageVariationRequest { n, ..*self }
    }

    open spec fn response_format_replaced(&self, format: Option<ImageResponseFormat>) -> Self {
        ImageVariationRequest { response_format: format, ..*self }
    }

    open spec fn size_replaced(&self, size: Option<ImageSize>) -> Self {
        ImageVariationRequest { size, ..*self }
    }

    open spec fn user_replaced(&self, user: Option<String>) -> Self {
        ImageVariationRequest { user, ..*self }
    }

    fn get_n_mut(&mut self) -> (r: &mut Option<u32>) {
        &mut self.n
    }

    fn get_response_format_mut(&mut self) -> (r: &mut Option<ImageResponseFormat>) {
        &mut self.response_format
    }

    fn get_size_mut(&mut self) -> (r: &mut Option<ImageSize>) {
        &mut self.size
    }

    fn get_user_mut(&mut self) -> (r: &mut Option<String>) {
        &mut self.user
    }
}

} // verus!
