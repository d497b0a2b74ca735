//! Videos (Sora) API endpoints

use vstd::prelude::*;

verus! {

/// Base videos endpoint
pub const BASE: &'static str = "/v1/videos";

/// Video generations endpoint
pub const GENERATIONS: &'static str = "/v1/videos/generations";

/// Get specific video by ID
pub fn by_id(id: &str) -> (r: String)
    ensures
        r@ == BASE@ + "/"@ + id@,
{
    let mut r = String::from_str(BASE);
    r.append("/");
    r.append(id);
    r
}

} // verus!
