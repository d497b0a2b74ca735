//! # Image Response Types
//!
//! Response structures for image generation, editing, and variation.

use vstd::prelude::*;
use crate::text::{base64_decode, base64_standard_decoding, opt_chars};

verus! {

/// Response from image generation, editing, or variation
#[derive(Debug, Clone)]
pub struct ImageResponse {
    /// The Unix timestamp of when the images were created
    pub created: u64,
    /// The list of generated images
    pub data: Vec<ImageData>,
}

/// Individual image data in the response
#[derive(Debug, Clone)]
pub struct ImageData {
    /// The URL of the generated image (if `response_format` is "url")
    pub url: Option<String>,
    /// The base64-encoded JSON of the generated image (if `response_format` is "b64_json")
    pub b64_json: Option<String>,
    /// The prompt that was used to generate the image, if revised
    pub revised_prompt: Option<String>,
}

/// An optional borrowed string taken by its characters.
pub open spec fn opt_str_view(s: Option<&str>) -> Option<Seq<char>> {
    match s {
        Some(v) => Some(v@),
        None => None,
    }
}

/// The URLs of the images that have one, in order.
pub open spec fn urls_of(s: Seq<ImageData>) -> Seq<Seq<char>>
    decreases s.len(),
{
    if s.len() == 0 {
        Seq::empty()
    } else {
        let rest = urls_of(s.drop_last());
        match s.last().url {
            Some(u) => rest.push(u@),
            None => rest,
        }
    }
}

/// The revised prompts of the images that have one, in order.
pub open spec fn revised_prompts_of(s: Seq<ImageData>) -> Seq<Seq<char>>
    decreases s.len(),
{
    if s.len() == 0 {
        Seq::empty()
    } else {
        let rest = revised_prompts_of(s.drop_last());
        match s.last().revised_prompt {
            Some(u) => rest.push(u@),
            None => rest,
        }
    }
}

fn opt_as_str(s: &Option<String>) -> (r: Option<&str>)
    ensures
        opt_str_view(r) == opt_chars(*s),
{
    match s {
        Some(v) => Some(v.as_str()),
        None => None,
    }
}

/// The message returned when base64 decoding fails with the given detail.
pub fn base64_failure_message(detail: &str) -> (r: String)
    ensures
        r@ == "Failed to decode base64: "@ + detail@,
{
    let mut r = String::from_str("Failed to decode base64: ");
    r.append(detail);
    r
}

impl ImageData {
    /// Check if this image data has a URL
    pub fn has_url(&self) -> (r: bool)
        ensures
            r == self.url is Some,
    {
        self.url.is_some()
    }

    /// Check if this image data has base64 JSON
    pub fn has_b64_json(&self) -> (r: bool)
        ensures
            r == self.b64_json is Some,
    {
        self.b64_json.is_some()
    }

    /// Get the URL if available
    pub fn get_url(&self) -> (r: Option<&str>)
        ensures
            opt_str_view(r) == opt_chars(self.url),
    {
        opt_as_str(&self.url)
    }

    /// Get the base64 JSON if available
    pub fn get_b64_json(&self) -> (r: Option<&str>)
        ensures
            opt_str_view(r) == opt_chars(self.b64_json),
    {
        opt_as_str(&self.b64_json)
    }

    /// Get the revised prompt if available
    pub fn get_revised_prompt(&self) -> (r: Option<&str>)
        ensures
            opt_str_view(r) == opt_chars(self.revised_prompt),
    {
        opt_as_str(&self.revised_prompt)
    }

    /// Decode the base64 image data (standard alphabet, padded)
    pub fn decode_b64_json(&self) -> (r: Result<Vec<u8>, String>)
        ensures
            match self.b64_json {
                None => r matches Err(e) && e@ == "No base64 data available"@,
                Some(s) => match base64_standard_decoding(s@) {
                    Ok(bytes) => r matches Ok(v) && v@ == bytes,
                    Err(detail) => r matches Err(e) && e@ == "Failed to decode base64: "@ + detail,
                },
            },
    {
        match &self.b64_json {
            Some(b64_data) => match base64_decode(b64_data.as_str()) {
                Ok(v) => Ok(v),
                Err(detail) => Err(base64_failure_message(detail.as_str())),
            },
            None => Err(String::from_str("No base64 data available")),
        }
    }
}

impl ImageResponse {
    /// Get the number of images in the response
    pub fn count(&self) -> (r: usize)
        ensures
            r == self.data@.len(),
    {
        self.data.len()
    }

    /// Check if any image has a URL
    pub fn has_urls(&self) -> (r: bool)
        ensures
            r == exists|i: int| 0 <= i < self.data@.len() && (#[trigger] self.data@[i]).url is Some,
    {
        let mut i: usize = 0;
        while i < self.data.len()
            invariant
                i <= self.data@.len(),
                forall|j: int| 0 <= j < i ==> (#[trigger] self.data@[j]).url is None,
            decreases self.data.len() - i,
        {
            if self.data[i].has_url() {
                return true;
            }
            i += 1;
        }
        false
    }

    /// Check if any image has base64 JSON
    pub fn has_b64_json(&self) -> (r: bool)
        ensures
            r == exists|i: int|
                0 <= i < self.data@.len() && (#[trigger] self.data@[i]).b64_json is Some,
    {
        let mut i: usize = 0;
        while i < self.data.len()
            invariant
                i <= self.data@.len(),
                forall|j: int| 0 <= j < i ==> (#[trigger] self.data@[j]).b64_json is None,
            decreases self.data.len() - i,
        {
            if self.data[i].has_b64_json() {
                return true;
            }
            i += 1;
        }
        false
    }

    /// Get all URLs from the response, in order
    pub fn get_urls(&self) -> (r: Vec<&str>)
        ensures
            r@.map_values(|s: &str| s@) == urls_of(self.data@),
    {
        let mut r: Vec<&str> = Vec::new();
        let mut i: usize = 0;
        while i < self.data.len()
            invariant
                i <= self.data@.len(),
                r@.map_values(|s: &str| s@) == urls_of(self.data@.take(i as int)),
            decreases self.data.len() - i,
        {
            proof {
                assert(self.data@.take(i + 1).drop_last() =~= self.data@.take(i as int));
            }
            let ghost before = r@;
            if let Some(u) = self.data[i].get_url() {
                r.push(u);
                assert(r@.map_values(|s: &str| s@) =~= before.map_values(|s: &str| s@).push(u@));
            }
            i += 1;
        }
        proof {
            assert(self.data@.take(i as int) =~= self.data@);
        }
        r
    }

    /// Get the first image if available
    pub fn first_image(&self) -> (r: Option<&ImageData>)
        ensures
            match r {
                Some(d) => self.data@.len() > 0 && *d == self.data@[0],
                None => self.data@.len() == 0,
            },
    {
        if self.data.len() > 0 {
            Some(&self.data[0])
        } else {
            None
        }
    }

    /// Get all revised prompts, in order
    pub fn get_revised_prompts(&self) -> (r: Vec<&str>)
        ensures
            r@.map_values(|s: &str| s@) == revised_prompts_of(self.data@),
    {
        let mut r: Vec<&str> = Vec::new();
        let mut i: usize = 0;
        while i < self.data.len()
            invariant
                i <= self.data@.len(),
                r@.map_values(|s: &str| s@) == revised_prompts_of(self.data@.take(i as int)),
            decreases self.data.len() - i,
        {
            proof {
                assert(self.data@.take(i + 1).drop_last() =~= self.data@.take(i as int));
            }
            let ghost before = r@;
            if let Some(u) = self.data[i].get_revised_prompt() {
                r.push(u);
                assert(r@.map_values(|s: &str| s@) =~= before.map_values(|s: &str| s@).push(u@));
            }
            i += 1;
        }
        proof {
            assert(self.data@.take(i as int) =~= self.data@);
        }
        r
    }
}

} // verus!
