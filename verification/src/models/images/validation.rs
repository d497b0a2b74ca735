//! # Image Request Validation
//!
//! Validation logic for different DALL-E models and their specific constraints.

/// Validation error messages
pub mod errors;
/// Model name constants used in validation
pub mod models;

use vstd::prelude::*;
use super::requests::ImageGenerationRequest;
use super::types::ImageSize;
use crate::text::str_eq;

verus! {

/// The rules for DALL-E 3: one image per request, and no 256x256 or 512x512 sizes.
pub open spec fn dall_e_3_check(r: ImageGenerationRequest) -> Result<(), Seq<char>> {
    if r.n is Some && r.n.unwrap() != 1 {
        Err(errors::DALL_E_3_SINGLE_IMAGE@)
    } else if r.size == Some(ImageSize::Size256x256) || r.size == Some(ImageSize::Size512x512) {
        Err(errors::DALL_E_3_SIZE_NOT_SUPPORTED@)
    } else {
        Ok(())
    }
}

/// The rules for DALL-E 2: no quality, no style, and no 1792x1024 or 1024x1792 sizes.
pub open spec fn dall_e_2_check(r: ImageGenerationRequest) -> Result<(), Seq<char>> {
    if r.quality is Some {
        Err(errors::DALL_E_2_NO_QUALITY@)
    } else if r.style is Some {
        Err(errors::DALL_E_2_NO_STYLE@)
    } else if r.size == Some(ImageSize::Size1792x1024) || r.size == Some(ImageSize::Size1024x1792) {
        Err(errors::DALL_E_2_SIZE_NOT_SUPPORTED@)
    } else {
        Ok(())
    }
}

/// The rules for a request: those of its model, and none for other models.
pub open spec fn generation_check(r: ImageGenerationRequest) -> Result<(), Seq<char>> {
    if r.model@ == models::DALL_E_3@ {
        dall_e_3_check(r)
    } else if r.model@ == models::DALL_E_2@ {
        dall_e_2_check(r)
    } else {
        Ok(())
    }
}

/// Validate a request against the DALL-E 3 rules
pub fn validate_dall_e_3(request: &ImageGenerationRequest) -> (r: Result<(), String>)
    ensures
        crate::text::unit_result_view(r) == dall_e_3_check(*request),
{
    validate_dall_e_3_image_count(request)?;
    validate_dall_e_3_image_size(request)?;
    Ok(())
}

/// Validate a request against the DALL-E 2 rules
pub fn validate_dall_e_2(request: &ImageGenerationRequest) -> (r: Result<(), String>)
    ensures
        crate::text::unit_result_view(r) == dall_e_2_check(*request),
{
    validate_dall_e_2_quality_and_style(request)?;
    validate_dall_e_2_image_size(request)?;
    Ok(())
}

fn validate_dall_e_3_image_count(request: &ImageGenerationRequest) -> (r: Result<(), String>)
    ensures
        match r {
            Ok(()) => !(request.n is Some && request.n.unwrap() != 1),
            Err(e) => request.n is Some && request.n.unwrap() != 1 && e@
                == errors::DALL_E_3_SINGLE_IMAGE@,
        },
{
    if let Some(n) = request.n {
        if n != 1 {
            return Err(String::from_str(errors::DALL_E_3_SINGLE_IMAGE));
        }
    }
    Ok(())
}

fn validate_dall_e_3_image_size(request: &ImageGenerationRequest) -> (r: Result<(), String>)
    ensures
        match r {
            Ok(()) => !(request.size == Some(ImageSize::Size256x256) || request.size == Some(
                ImageSize::Size512x512,
            )),
            Err(e) => (request.size == Some(ImageSize::Size256x256) || request.size == Some(
                ImageSize::Size512x512,
            )) && e@ == errors::DALL_E_3_SIZE_NOT_SUPPORTED@,
        },
{
    match &request.size {
        Some(ImageSize::Size256x256) | Some(ImageSize::Size512x512) => {
            Err(String::from_str(errors::DALL_E_3_SIZE_NOT_SUPPORTED))
        },
        _ => Ok(()),
    }
}

fn validate_dall_e_2_quality_and_style(request: &ImageGenerationRequest) -> (r: Result<(), String>)
    ensures
        match r {
            Ok(()) => request.quality is None && request.style is None,
            Err(e) => if request.quality is Some {
                e@ == errors::DALL_E_2_NO_QUALITY@
            } else {
                request.style is Some && e@ == errors::DALL_E_2_NO_STYLE@
            },
        },
{
    if request.quality.is_some() {
        return Err(String::from_str(errors::DALL_E_2_NO_QUALITY));
    }
    if request.style.is_some() {
        return Err(String::from_str(errors::DALL_E_2_NO_STYLE));
    }
    Ok(())
}

fn validate_dall_e_2_image_size(request: &ImageGenerationRequest) -> (r: Result<(), String>)
    ensures
        match r {
            Ok(()) => !(request.size == Some(ImageSize::Size1792x1024) || request.size == Some(
                ImageSize::Size1024x1792,
            )),
            Err(e) => (request.size == Some(ImageSize::Size1792x1024) || request.size == Some(
                ImageSize::Size1024x1792,
            )) && e@ == errors::DALL_E_2_SIZE_NOT_SUPPORTED@,
        },
{
    match &request.size {
        Some(ImageSize::Size1792x1024) | Some(ImageSize::Size1024x1792) => {
            Err(String::from_str(errors::DALL_E_2_SIZE_NOT_SUPPORTED))
        },
        _ => Ok(()),
    }
}

/// Validate a request against the rules of its model (DALL-E 3 or DALL-E 2); requests
/// for other models are accepted as they are.
pub fn validate_request(request: &ImageGenerationRequest) -> (r: Result<(), String>)
    ensures
        crate::text::unit_result_view(r) == generation_check(*request),
{
    if str_eq(request.model.as_str(), models::DALL_E_3) {
        validate_dall_e_3(request)?;
    } else if str_eq(request.model.as_str(), models::DALL_E_2) {
        validate_dall_e_2(request)?;
    }
    Ok(())
}

} // verus!
