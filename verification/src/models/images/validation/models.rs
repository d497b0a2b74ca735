//! Model name constants used in validation

use vstd::prelude::*;

verus! {

/// DALL-E 3 model name
pub const DALL_E_3: &'static str = "dall-e-3";
/// DALL-E 2 model name
pub const DALL_E_2: &'static str = "dall-e-2";

} // verus!
