//! Files API endpoints

use vstd::prelude::*;

verus! {

/// Base files endpoint
pub const BASE: &'static str = "/v1/files";

/// Get specific file by ID
pub fn by_id(id: &str) -> (r: String)
    ensures
        r@ == BASE@ + "/"@ + id@,
{
    let mut r = String::from_str(BASE);
    r.append("/");
    r.append(id);
    r
}

/// Download file content
pub fn content(id: &str) -> (r: String)
    ensures
        r@ == BASE@ + "/"@ + id@ + "/content"@,
{
    let mut r = String::from_str(BASE);
    r.append("/");
    r.append(id);
    r.append("/content");
    r
}

} // verus!
