//! Uploads API endpoints

use vstd::prelude::*;

verus! {

/// Base uploads endpoint
pub const BASE: &'static str = "/v1/uploads";

/// Get specific upload by ID
pub fn by_id(id: &str) -> (r: String)
    ensures
        r@ == BASE@ + "/"@ + id@,
{
    let mut r = String::from_str(BASE);
    r.append("/");
    r.append(id);
    r
}

/// Upload parts endpoint
pub fn parts(upload_id: &str) -> (r: String)
    ensures
        r@ == BASE@ + "/"@ + upload_id@ + "/parts"@,
{
    let mut r = String::from_str(BASE);
    r.append("/");
    r.append(upload_id);
    r.append("/parts");
    r
}

/// Complete upload endpoint
pub fn complete(upload_id: &str) -> (r: String)
    ensures
        r@ == BASE@ + "/"@ + upload_id@ + "/complete"@,
{
    let mut r = String::from_str(BASE);
    r.append("/");
    r.append(upload_id);
    r.append("/complete");
    r
}

/// Cancel upload endpoint
pub fn cancel(upload_id: &str) -> (r: String)
    ensures
        r@ == BASE@ + "/"@ + upload_id@ + "/cancel"@,
{
    let mut r = String::from_str(BASE);
    r.append("/");
    r.append(upload_id);
    r.append("/cancel");
    r
}

} // verus!
