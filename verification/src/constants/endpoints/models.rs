//! Models API endpoints

use vstd::prelude::*;

verus! {

/// Base models endpoint
pub const BASE: &'static str = "/v1/models";

/// Get specific model by ID
pub fn by_id(id: &str) -> (r: String)
    ensures
        r@ == BASE@ + "/"@ + id@,
{
    let mut r = String::from_str(BASE);
    r.append("/");
    r.append(id);
    r
}

} // verus!
