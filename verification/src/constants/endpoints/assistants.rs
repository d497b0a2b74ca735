//! Assistants API endpoints

use vstd::prelude::*;

verus! {

/// Base assistants endpoint
pub const BASE: &'static str = "/v1/assistants";

/// Get specific assistant by ID
pub fn by_id(id: &str) -> (r: String)
    ensures
        r@ == BASE@ + "/"@ + id@,
{
    let mut r = String::from_str(BASE);
    r.append("/");
    r.append(id);
    r
}

} // verus!
