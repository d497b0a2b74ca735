//! Containers API endpoints

use vstd::prelude::*;

verus! {

/// Base containers endpoint
pub const BASE: &'static str = "/v1/containers";

/// Get specific container by ID
pub fn by_id(id: &str) -> (r: String)
    ensures
        r@ == BASE@ + "/"@ + id@,
{
    let mut r = String::from_str(BASE);
    r.append("/");
    r.append(id);
    r
}

/// Container files endpoint
pub fn files(container_id: &str) -> (r: String)
    ensures
        r@ == BASE@ + "/"@ + container_id@ + "/files"@,
{
    let mut r = String::from_str(BASE);
    r.append("/");
    r.append(container_id);
    r.append("/files");
    r
}

/// Specific container file by ID
pub fn file_by_id(container_id: &str, file_id: &str) -> (r: String)
    ensures
        r@ == BASE@ + "/"@ + container_id@ + "/files/"@ + file_id@,
{
    let mut r = String::from_str(BASE);
    r.append("/");
    r.append(container_id);
    r.append("/files/");
    r.append(file_id);
    r
}

/// Container file content endpoint
pub fn file_content(container_id: &str, file_id: &str) -> (r: String)
    ensures
        r@ == BASE@ + "/"@ + container_id@ + "/files/"@ + file_id@ + "/content"@,
{
    let mut r = String::from_str(BASE);
    r.append("/");
    r.append(container_id);
    r.append("/files/");
    r.append(file_id);
    r.append("/content");
    r
}

/// Container execute endpoint
pub fn execute(container_id: &str) -> (r: String)
    ensures
        r@ == BASE@ + "/"@ + container_id@ + "/execute"@,
{
    let mut r = String::from_str(BASE);
    r.append("/");
    r.append(container_id);
    r.append("/execute");
    r
}

/// Container keep-alive endpoint
pub fn keep_alive(container_id: &str) -> (r: String)
    ensures
        r@ == BASE@ + "/"@ + container_id@ + "/keep-alive"@,
{
    let mut r = String::from_str(BASE);
    r.append("/");
    r.append(container_id);
    r.append("/keep-alive");
    r
}

} // verus!
