//! # Common Image Functionality
//!
//! The image count rule shared by all image requests, and setters common to them.

use vstd::prelude::*;
use super::requests::{ImageEditRequest, ImageGenerationRequest, ImageVariationRequest};
use super::types::{ImageResponseFormat, ImageSize};

verus! {

/// The API accepts between 1 and 10 images per request.
pub open spec fn clamped_count(n: u32) -> u32 {
    if n < 1 {
        1
    } else if n > 10 {
        10
    } else {
        n
    }
}

/// Clamp image count to valid range (1-10)
pub fn clamp_image_count(n: u32) -> (r: u32)
    ensures
        r == clamped_count(n),
        1 <= r <= 10,
{
    if n < 1 {
        1
    } else if n > 10 {
        10
    } else {
        n
    }
}

/// Clamping is idempotent, and leaves counts already in range unchanged.
pub proof fn lemma_clamp_idempotent(n: u32)
    ensures
        clamped_count(clamped_count(n)) == clamped_count(n),
        1 <= n <= 10 ==> clamped_count(n) == n,
{
}

/// Setters shared by all image request types
pub trait ImageRequestCommon {
    /// Set the number of images, clamped to 1-10
    fn set_n(&mut self, n: u32);
    /// Set the response format
    fn set_response_format(&mut self, format: ImageResponseFormat);
    /// Set the image size
    fn set_size(&mut self, size: ImageSize);
    /// Set the user identifier
    fn set_user(&mut self, user: String);
}

impl ImageRequestCommon for ImageGenerationRequest {
    fn set_n(&mut self, n: u32)
        ensures
            *final(self) == (ImageGenerationRequest { n: Some(clamped_count(n)), ..*old(self) }),
    {
        self.n = Some(clamp_image_count(n));
    }

    fn set_response_format(&mut self, format: ImageResponseFormat)
        ensures
            *final(self) == (ImageGenerationRequest { response_format: Some(format), ..*old(self) }),
    {
        self.response_format = Some(format);
    }

    fn set_size(&mut self, size: ImageSize)
        ensures
            *final(self) == (ImageGenerationRequest { size: Some(size), ..*old(self) }),
    {
        self.size = Some(size);
    }

    fn set_user(&mut self, user: String)
        ensures
            *final(self) == (ImageGenerationRequest { user: Some(user), ..*old(self) }),
    {
        self.user = Some(user);
    }
}

impl ImageRequestCommon for ImageEditRequest {
    fn set_n(&mut self, n: u32)
        ensures
            *final(self) == (ImageEditRequest { n: Some(clamped_count(n)), ..*old(self) }),
    {
        self.n = Some(clamp_image_count(n));
    }

    fn set_response_format(&mut self, format: ImageResponseFormat)
        ensures
            *final(self) == (ImageEditRequest { response_format: Some(format), ..*old(self) }),
    {
        self.response_format = Some(format);
    }

    fn set_size(&mut self, size: ImageSize)
        ensures
            *final(self) == (ImageEditRequest { size: Some(size), ..*old(self) }),
    {
        self.size = Some(size);
    }

    fn set_user(&mut self, user: String)
        ensures
            *final(self) == (ImageEditRequest { user: Some(user), ..*old(self) }),
    {
        self.user = Some(user);
    }
}

impl ImageRequestCommon for ImageVariationRequest {
    fn set_n(&mut self, n: u32)
        ensures
            *final(self) == (ImageVariationRequest { n: Some(clamped_count(n)), ..*old(self) }),
    {
        self.n = Some(clamp_image_count(n));
    }

    fn set_response_format(&mut self, format: ImageResponseFormat)
        ensures
            *final(self) == (ImageVariationRequest { response_format: Some(format), ..*old(self) }),
    {
        self.response_format = Some(format);
    }

    fn set_size(&mut self, size: ImageSize)
        ensures
            *final(self) == (ImageVariationRequest { size: Some(size), ..*old(self) }),
    {
        self.size = Some(size);
    }

    fn set_user(&mut self, user: String)
        ensures
            *final(self) == (ImageVariationRequest { user: Some(user), ..*old(self) }),
    {
        self.user = Some(user);
    }
}

} // verus!
