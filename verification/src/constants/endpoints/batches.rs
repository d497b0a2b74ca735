//! Batches API endpoints

use vstd::prelude::*;

verus! {

/// Base batches endpoint
pub const BASE: &'static str = "/v1/batches";

/// Get specific batch by ID
pub fn by_id(id: &str) -> (r: String)
    ensures
        r@ == BASE@ + "/"@ + id@,
{
    let mut r = String::from_str(BASE);
    r.append("/");
    r.append(id);
    r
}

/// Cancel batch
pub fn cancel(id: &str) -> (r: String)
    ensures
        r@ == BASE@ + "/"@ + id@ + "/cancel"@,
{
    let mut r = String::from_str(BASE);
    r.append("/");
    r.append(id);
    r.append("/cancel");
    r
}

} // verus!
