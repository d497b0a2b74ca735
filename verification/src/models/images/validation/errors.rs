//! Validation error messages

use vstd::prelude::*;

verus! {

/// DALL-E 3 accepts one image per request
pub const DALL_E_3_SINGLE_IMAGE: &'static str = "DALL-E 3 only supports generating 1 image at a time";
/// DALL-E 3 has no small sizes
pub const DALL_E_3_SIZE_NOT_SUPPORTED: &'static str =
    "DALL-E 3 does not support 256x256 or 512x512 sizes";
/// DALL-E 2 has no quality setting
pub const DALL_E_2_NO_QUALITY: &'static str = "Quality parameter is only available for DALL-E 3";
/// DALL-E 2 has no style setting
pub const DALL_E_2_NO_STYLE: &'static str = "Style parameter is only available for DALL-E 3";
/// DALL-E 2 has no wide or tall sizes
pub const DALL_E_2_SIZE_NOT_SUPPORTED: &'static str =
    "DALL-E 2 does not support 1792x1024 or 1024x1792 sizes";

} // verus!
